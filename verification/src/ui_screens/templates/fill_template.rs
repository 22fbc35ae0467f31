use vstd::prelude::*;
use crate::ui_screens::final_nav_view_or_edit_modals::fill_template::{
    MarkerValues, values_for, values_for_markers,
};

verus! {

/// The template-filling page: the template, the values typed for its
/// markers, and the text generated last.
pub struct FillTemplateState {
    pub id: i64,
    pub title: String,
    pub content: String,
    pub instructions: String,
    pub example: String,
    pub values: MarkerValues,
    pub result: Option<String>,
}

impl Default for FillTemplateState {
    fn default() -> (s: Self)
        ensures
            s.id == 0,
            s.title@ == Seq::<char>::empty(),
            s.content@ == Seq::<char>::empty(),
            s.instructions@ == Seq::<char>::empty(),
            s.example@ == Seq::<char>::empty(),
            s.values@ == Map::<Seq<char>, Seq<char>>::empty(),
            s.result is None,
    {
        FillTemplateState {
            id: 0,
            title: String::new(),
            content: String::new(),
            instructions: String::new(),
            example: String::new(),
            values: MarkerValues::new(),
            result: None,
        }
    }
}

impl FillTemplateState {
    /// Takes the markers of the content anew: the values follow the markers.
    pub fn reset_values_for_markers(&mut self, markers: &Vec<String>)
        ensures
            final(self).values@ == values_for_markers(
                old(self).values@,
                markers@.map_values(|s: String| s@),
            ),
            final(self).result == old(self).result,
            final(self).id == old(self).id,
            final(self).title == old(self).title,
            final(self).content == old(self).content,
            final(self).instructions == old(self).instructions,
            final(self).example == old(self).example,
    {
        self.values = values_for(&self.values, markers);
    }
}

/// What the filling page asks for.
#[derive(Clone, Copy, PartialEq, Eq, Structural, Debug)]
pub enum FillTemplateAction {
    Nothing,
    Back,
}

} // verus!
