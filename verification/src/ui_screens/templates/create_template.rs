use vstd::prelude::*;
use crate::components::category_picker_popup::CategoryPickerState;
use crate::ui_screens::{PopupAnswer, field_line, line, optional_line, push_optional_line};

verus! {

/// The form for a new template, and whether its confirmation dialog is open.
pub struct CreateTemplateState {
    pub title: String,
    pub content: String,
    pub instructions: String,
    pub example: String,
    pub category_picker: CategoryPickerState,
    pub meta_category_picker: CategoryPickerState,
    pub show_confirm: bool,
}

impl Default for CreateTemplateState {
    fn default() -> (s: Self)
        ensures
            s.title@ == Seq::<char>::empty(),
            s.content@ == Seq::<char>::empty(),
            s.instructions@ == Seq::<char>::empty(),
            s.example@ == Seq::<char>::empty(),
            s.category_picker.current@ == Seq::<char>::empty(),
            s.meta_category_picker.current@ == Seq::<char>::empty(),
            !s.show_confirm,
    {
        CreateTemplateState {
            title: String::new(),
            content: String::new(),
            instructions: String::new(),
            example: String::new(),
            category_picker: CategoryPickerState::default(),
            meta_category_picker: CategoryPickerState::default(),
            show_confirm: false,
        }
    }
}

/// What the new-template form asks for.
#[derive(Clone, Copy, PartialEq, Eq, Structural, Debug)]
pub enum CreateTemplateAction {
    Nothing,
    Back,
    Create,
}

impl CreateTemplateState {
    /// The Create button only opens the confirmation dialog.
    pub fn on_create_clicked(&mut self)
        ensures
            final(self).show_confirm,
            final(self).title == old(self).title,
            final(self).content == old(self).content,
            final(self).instructions == old(self).instructions,
            final(self).example == old(self).example,
            final(self).category_picker == old(self).category_picker,
            final(self).meta_category_picker == old(self).meta_category_picker,
    {
        self.show_confirm = true;
    }

    /// Closing the dialog: Confirm creates the template, Cancel goes back to
    /// the form; the dialog stays while it is open.
    pub fn on_confirm_answer(&mut self, answer: PopupAnswer) -> (a: CreateTemplateAction)
        ensures
            answer == PopupAnswer::Confirm ==> a == CreateTemplateAction::Create
                && !final(self).show_confirm,
            answer == PopupAnswer::Cancel ==> a == CreateTemplateAction::Nothing
                && !final(self).show_confirm,
            answer != PopupAnswer::Confirm && answer != PopupAnswer::Cancel ==> a
                == CreateTemplateAction::Nothing && final(self).show_confirm == old(self).show_confirm,
            final(self).title == old(self).title,
            final(self).content == old(self).content,
            final(self).instructions == old(self).instructions,
            final(self).example == old(self).example,
            final(self).category_picker == old(self).category_picker,
            final(self).meta_category_picker == old(self).meta_category_picker,
    {
        match answer {
            PopupAnswer::Confirm => {
                self.show_confirm = false;
                CreateTemplateAction::Create
            },
            PopupAnswer::Cancel => {
                self.show_confirm = false;
                CreateTemplateAction::Nothing
            },
            _ => CreateTemplateAction::Nothing,
        }
    }
}

/// What the confirmation dialog lists: title and content, then
/// instructions, example, category and meta category when they are set.
pub open spec fn confirm_lines_spec(
    title: Seq<char>,
    content: Seq<char>,
    instructions: Seq<char>,
    example: Seq<char>,
    category: Seq<char>,
    meta: Seq<char>,
) -> Seq<Seq<char>> {
    seq![line("title"@, title), line("content"@, content)] + optional_line(
        "instructions"@,
        instructions,
    ) + optional_line("example"@, example) + optional_line("category"@, category) + optional_line(
        "meta category"@,
        meta,
    )
}

pub fn confirm_lines(state: &CreateTemplateState) -> (lines: Vec<String>)
    ensures
        lines@.map_values(|s: String| s@) == confirm_lines_spec(
            state.title@,
            state.content@,
            state.instructions@,
            state.example@,
            state.category_picker.current@,
            state.meta_category_picker.current@,
        ),
{
    let mut lines: Vec<String> = Vec::new();
    lines.push(field_line("title", state.title.as_str()));
    lines.push(field_line("content", state.content.as_str()));
    assert(lines@.map_values(|s: String| s@) =~= seq![
        line("title"@, state.title@),
        line("content"@, state.content@),
    ]);
    push_optional_line(&mut lines, "instructions", state.instructions.as_str());
    push_optional_line(&mut lines, "example", state.example.as_str());
    push_optional_line(&mut lines, "category", state.category_picker.current.as_str());
    push_optional_line(&mut lines, "meta category", state.meta_category_picker.current.as_str());
    lines
}

} // verus!
