use vstd::prelude::*;
use crate::text::{trim, trimmed};

verus! {

/// The editor of a category's name, with the name it had when opened.
#[derive(Debug)]
pub struct EditSingleCategoryState {
    pub id: i64,
    pub name: String,
    pub original_name: String,
}

impl Default for EditSingleCategoryState {
    fn default() -> (s: Self)
        ensures
            s.id == 0,
            s.name@ == Seq::<char>::empty(),
            s.original_name@ == Seq::<char>::empty(),
    {
        EditSingleCategoryState { id: 0, name: String::new(), original_name: String::new() }
    }
}

/// What the category editor asks for.
#[derive(Clone, Copy, PartialEq, Eq, Structural, Debug)]
pub enum EditSingleCategoryAction {
    Nothing,
    Back,
    Save,
}

impl EditSingleCategoryState {
    /// Saving is offered when the name is not blank and differs from the one it had.
    pub fn can_save(&self) -> (b: bool)
        ensures
            b == (trimmed(self.name@).len() > 0 && self.name@ != self.original_name@),
    {
        !trim(self.name.as_str()).is_empty() && !(self.name == self.original_name)
    }
}

} // verus!
