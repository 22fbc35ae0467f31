use vstd::prelude::*;
use crate::components::category_picker_popup::CategoryPickerState;
use crate::helpers::edit::{
    edit_col_in_row, edit_template_content, edit_template_example, edit_template_instructions,
    edit_template_title,
};
use crate::payload::{EditColInRowIn, EditSpec, edit_spec};
use crate::row_col::{Col, ColSpec, Row, text_or_empty};
use crate::text::decimal;

verus! {

/// The editor of one stored template.
pub struct EditSingleTemplateState {
    pub id: i64,
    pub title: String,
    pub content: String,
    pub instructions: String,
    pub example: String,
    pub category_picker: CategoryPickerState,
    pub meta_category_picker: CategoryPickerState,
}

impl Default for EditSingleTemplateState {
    fn default() -> (s: Self)
        ensures
            s.id == 0,
            s.title@ == Seq::<char>::empty(),
            s.content@ == Seq::<char>::empty(),
            s.instructions@ == Seq::<char>::empty(),
            s.example@ == Seq::<char>::empty(),
            s.category_picker.current@ == Seq::<char>::empty(),
            s.meta_category_picker.current@ == Seq::<char>::empty(),
    {
        EditSingleTemplateState {
            id: 0,
            title: String::new(),
            content: String::new(),
            instructions: String::new(),
            example: String::new(),
            category_picker: CategoryPickerState::default(),
            meta_category_picker: CategoryPickerState::default(),
        }
    }
}

/// What the template editor asks for.
#[derive(Clone, Copy, PartialEq, Eq, Structural, Debug)]
pub enum EditSingleTemplateAction {
    Nothing,
    Back,
    Save,
}

impl EditSingleTemplateState {
    /// The editor for the stored template `row` with id `id`, its categories
    /// already named (empty for none); missing texts read as empty.
    pub fn from_row(id: i64, row: &Row, category: String, meta_category: String) -> (s: Self)
        ensures
            s.id == id,
            s.title@ == text_or_empty(row@, 1),
            s.content@ == text_or_empty(row@, 2),
            s.instructions@ == text_or_empty(row@, 3),
            s.example@ == text_or_empty(row@, 4),
            s.category_picker.current@ == category@,
            s.meta_category_picker.current@ == meta_category@,
            !s.category_picker.show && !s.meta_category_picker.show,
    {
        let mut picker = CategoryPickerState::default();
        picker.current = category;
        let mut meta_picker = CategoryPickerState::default();
        meta_picker.current = meta_category;
        EditSingleTemplateState {
            id,
            title: row.text_or_empty(1),
            content: row.text_or_empty(2),
            instructions: row.text_or_empty(3),
            example: row.text_or_empty(4),
            category_picker: picker,
            meta_category_picker: meta_picker,
        }
    }
}

/// The writes of saving an edited template, in order: title, content,
/// instructions, example, category and meta category, in one transaction.
pub open spec fn template_save_spec(
    id: i64,
    title: Seq<char>,
    content: Seq<char>,
    instructions: Seq<char>,
    example: Seq<char>,
    category: ColSpec,
    meta_category: ColSpec,
) -> Seq<EditSpec> {
    let row = decimal(id as int);
    seq![
        edit_spec("templates"@, row, "title"@, ColSpec::Text(title)),
        edit_spec("templates"@, row, "content"@, ColSpec::Text(content)),
        edit_spec("templates"@, row, "instructions"@, ColSpec::Text(instructions)),
        edit_spec("templates"@, row, "example"@, ColSpec::Text(example)),
        edit_spec("templates"@, row, "category_id"@, category),
        edit_spec("templates"@, row, "meta_category_id"@, meta_category),
    ]
}

pub fn template_save_edits(
    id: i64,
    title: String,
    content: String,
    instructions: String,
    example: String,
    category: Col,
    meta_category: Col,
) -> (edits: Vec<EditColInRowIn>)
    ensures
        edits@.map_values(|e: EditColInRowIn| e@) == template_save_spec(
            id,
            title@,
            content@,
            instructions@,
            example@,
            category@,
            meta_category@,
        ),
{
    let ghost (tv, cv, iv, ev, cc, mc) = (
        title@,
        content@,
        instructions@,
        example@,
        category@,
        meta_category@,
    );
    let edits = vec![
        edit_template_title(id, title),
        edit_template_content(id, content),
        edit_template_instructions(id, instructions),
        edit_template_example(id, example),
        edit_col_in_row("templates", id, "category_id", category),
        edit_col_in_row("templates", id, "meta_category_id", meta_category),
    ];
    assert(edits@.map_values(|e: EditColInRowIn| e@) =~= template_save_spec(
        id,
        tv,
        cv,
        iv,
        ev,
        cc,
        mc,
    ));
    edits
}

} // verus!
