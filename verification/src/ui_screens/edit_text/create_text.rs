use vstd::prelude::*;
use crate::components::category_picker_popup::CategoryPickerState;
use crate::ui_screens::{PopupAnswer, field_line, line, optional_line, push_optional_line};

verus! {

/// The form for a new text, and whether its confirmation dialog is open.
pub struct CreateTextState {
    pub title: String,
    pub body: String,
    pub type_of_text: String,
    pub category_picker: CategoryPickerState,
    pub meta_category_picker: CategoryPickerState,
    pub show_confirm: bool,
}

impl Default for CreateTextState {
    fn default() -> (s: Self)
        ensures
            s.title@ == Seq::<char>::empty(),
            s.body@ == Seq::<char>::empty(),
            s.type_of_text@ == Seq::<char>::empty(),
            s.category_picker.current@ == Seq::<char>::empty(),
            s.meta_category_picker.current@ == Seq::<char>::empty(),
            !s.category_picker.show && !s.meta_category_picker.show,
            !s.show_confirm,
    {
        CreateTextState {
            title: String::new(),
            body: String::new(),
            type_of_text: String::new(),
            category_picker: CategoryPickerState::default(),
            meta_category_picker: CategoryPickerState::default(),
            show_confirm: false,
        }
    }
}

/// What the new-text form asks for.
#[derive(Clone, Copy, PartialEq, Eq, Structural, Debug)]
pub enum CreateTextAction {
    Nothing,
    Back,
    Create,
}

impl CreateTextState {
    /// The Create button only opens the confirmation dialog.
    pub fn on_create_clicked(&mut self)
        ensures
            final(self).show_confirm,
            final(self).title == old(self).title,
            final(self).body == old(self).body,
            final(self).type_of_text == old(self).type_of_text,
            final(self).category_picker == old(self).category_picker,
            final(self).meta_category_picker == old(self).meta_category_picker,
    {
        self.show_confirm = true;
    }

    /// Closing the dialog: Confirm creates the text, Cancel goes back to the
    /// form; the dialog stays while it is open.
    pub fn on_confirm_answer(&mut self, answer: PopupAnswer) -> (a: CreateTextAction)
        ensures
            answer == PopupAnswer::Confirm ==> a == CreateTextAction::Create
                && !final(self).show_confirm,
            answer == PopupAnswer::Cancel ==> a == CreateTextAction::Nothing
                && !final(self).show_confirm,
            answer != PopupAnswer::Confirm && answer != PopupAnswer::Cancel ==> a
                == CreateTextAction::Nothing && final(self).show_confirm == old(self).show_confirm,
            final(self).title == old(self).title,
            final(self).body == old(self).body,
            final(self).type_of_text == old(self).type_of_text,
            final(self).category_picker == old(self).category_picker,
            final(self).meta_category_picker == old(self).meta_category_picker,
    {
        match answer {
            PopupAnswer::Confirm => {
                self.show_confirm = false;
                CreateTextAction::Create
            },
            PopupAnswer::Cancel => {
                self.show_confirm = false;
                CreateTextAction::Nothing
            },
            _ => CreateTextAction::Nothing,
        }
    }
}

/// What the confirmation dialog lists: title and body, then type, category
/// and meta category when they are set.
pub open spec fn confirm_lines_spec(
    title: Seq<char>,
    body: Seq<char>,
    type_of_text: Seq<char>,
    category: Seq<char>,
    meta: Seq<char>,
) -> Seq<Seq<char>> {
    seq![line("title"@, title), line("body"@, body)] + optional_line("type"@, type_of_text)
        + optional_line("category"@, category) + optional_line("meta category"@, meta)
}

pub fn confirm_lines(state: &CreateTextState) -> (lines: Vec<String>)
    ensures
        lines@.map_values(|s: String| s@) == confirm_lines_spec(
            state.title@,
            state.body@,
            state.type_of_text@,
            state.category_picker.current@,
            state.meta_category_picker.current@,
        ),
{
    let mut lines: Vec<String> = Vec::new();
    lines.push(field_line("title", state.title.as_str()));
    lines.push(field_line("body", state.body.as_str()));
    assert(lines@.map_values(|s: String| s@) =~= seq![
        line("title"@, state.title@),
        line("body"@, state.body@),
    ]);
    push_optional_line(&mut lines, "type", state.type_of_text.as_str());
    push_optional_line(&mut lines, "category", state.category_picker.current.as_str());
    push_optional_line(&mut lines, "meta category", state.meta_category_picker.current.as_str());
    lines
}

} // verus!
