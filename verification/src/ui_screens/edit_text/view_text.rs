use vstd::prelude::*;

verus! {

/// A text shown read-only.
#[derive(Debug)]
pub struct ViewTextState {
    pub title: String,
    pub body: String,
}

/// What the read-only view asks for.
#[derive(Clone, Copy, PartialEq, Eq, Structural, Debug)]
pub enum ViewTextAction {
    Nothing,
    Back,
}

} // verus!
