use vstd::prelude::*;

verus! {

/// What a button of the bar at the top of the screen asks for.
#[derive(Clone, Copy, PartialEq, Eq, Structural, Debug)]
pub enum TopMenuAction {
    Nothing,
    GoToViewAll,
    GoToProjects,
    GoToJson,
    NewPlus,
    HalveCounters,
}

} // verus!
