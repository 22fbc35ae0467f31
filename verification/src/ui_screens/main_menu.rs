use vstd::prelude::*;

verus! {

/// What the main menu asks for.
#[derive(Clone, Copy, PartialEq, Eq, Structural, Debug)]
pub enum MainMenuAction {
    Nothing,
    GoToEditText,
    GoToJson,
    GoToProjects,
}

} // verus!
