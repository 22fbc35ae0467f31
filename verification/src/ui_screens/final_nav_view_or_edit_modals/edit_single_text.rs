use vstd::prelude::*;
use crate::components::category_picker_popup::CategoryPickerState;
use crate::helpers::edit::{edit_col_in_row, edit_text_body, edit_text_title};
use crate::payload::{EditColInRowIn, EditSpec, edit_spec};
use crate::row_col::{Col, ColSpec, Row, flag_at, text_or_empty};
use crate::text::decimal;

verus! {

/// The editor of one stored text.
pub struct EditSingleTextState {
    pub id: i64,
    pub title: String,
    pub body: String,
    pub type_of_text: String,
    pub category_picker: CategoryPickerState,
    pub meta_category_picker: CategoryPickerState,
    pub copy_instead_of_view: bool,
}

impl Default for EditSingleTextState {
    fn default() -> (s: Self)
        ensures
            s.id == 0,
            s.title@ == Seq::<char>::empty(),
            s.body@ == Seq::<char>::empty(),
            s.type_of_text@ == Seq::<char>::empty(),
            s.category_picker.current@ == Seq::<char>::empty(),
            s.meta_category_picker.current@ == Seq::<char>::empty(),
            !s.copy_instead_of_view,
    {
        EditSingleTextState {
            id: 0,
            title: String::new(),
            body: String::new(),
            type_of_text: String::new(),
            category_picker: CategoryPickerState::default(),
            meta_category_picker: CategoryPickerState::default(),
            copy_instead_of_view: false,
        }
    }
}

/// What the text editor asks for.
#[derive(Clone, Copy, PartialEq, Eq, Structural, Debug)]
pub enum EditSingleTextAction {
    Nothing,
    Back,
    Save,
}

impl EditSingleTextState {
    /// The editor for the stored text `row` with id `id`, its categories
    /// already named (empty for none); missing texts read as empty and a
    /// missing copy flag as false.
    pub fn from_row(id: i64, row: &Row, category: String, meta_category: String) -> (s: Self)
        ensures
            s.id == id,
            s.title@ == text_or_empty(row@, 1),
            s.body@ == text_or_empty(row@, 2),
            s.type_of_text@ == text_or_empty(row@, 5),
            s.category_picker.current@ == category@,
            s.meta_category_picker.current@ == meta_category@,
            !s.category_picker.show && !s.meta_category_picker.show,
            s.copy_instead_of_view == flag_at(row@, 6),
    {
        let mut picker = CategoryPickerState::default();
        picker.current = category;
        let mut meta_picker = CategoryPickerState::default();
        meta_picker.current = meta_category;
        EditSingleTextState {
            id,
            title: row.text_or_empty(1),
            body: row.text_or_empty(2),
            type_of_text: row.text_or_empty(5),
            category_picker: picker,
            meta_category_picker: meta_picker,
            copy_instead_of_view: row.flag_at(6),
        }
    }
}

/// The type of a text as stored: NULL when it is empty.
pub open spec fn type_col(t: Seq<char>) -> ColSpec {
    if t.len() == 0 {
        ColSpec::Null
    } else {
        ColSpec::Text(t)
    }
}

/// The writes of saving an edited text, in order: title, body, type,
/// category, meta category, and the copy flag when it is saved too (the
/// editor over the circle menu saves it, the editor page does not). The two
/// category columns are given as resolved (an id, or NULL for none).
pub open spec fn text_save_spec(
    id: i64,
    title: Seq<char>,
    body: Seq<char>,
    type_of_text: Seq<char>,
    category: ColSpec,
    meta_category: ColSpec,
    copy: Option<bool>,
) -> Seq<EditSpec> {
    let row = decimal(id as int);
    seq![
        edit_spec("texts"@, row, "title"@, ColSpec::Text(title)),
        edit_spec("texts"@, row, "body"@, ColSpec::Text(body)),
        edit_spec("texts"@, row, "type_of_text"@, type_col(type_of_text)),
        edit_spec("texts"@, row, "category_id"@, category),
        edit_spec("texts"@, row, "meta_category_id"@, meta_category),
    ] + match copy {
        Some(b) => seq![
            edit_spec("texts"@, row, "copy_instead_of_view"@, ColSpec::Integer(if b { 1 } else { 0 })),
        ],
        None => Seq::empty(),
    }
}

pub fn text_save_edits(
    id: i64,
    title: String,
    body: String,
    type_of_text: String,
    category: Col,
    meta_category: Col,
    copy: Option<bool>,
) -> (edits: Vec<EditColInRowIn>)
    ensures
        edits@.map_values(|e: EditColInRowIn| e@) == text_save_spec(
            id,
            title@,
            body@,
            type_of_text@,
            category@,
            meta_category@,
            copy,
        ),
{
    let ghost (tv, bv, yv, cv, mv) = (title@, body@, type_of_text@, category@, meta_category@);
    let type_value = if type_of_text.as_str().is_empty() {
        Col::Null
    } else {
        Col::Text(type_of_text)
    };
    let mut edits = vec![
        edit_text_title(id, title),
        edit_text_body(id, body),
        edit_col_in_row("texts", id, "type_of_text", type_value),
        edit_col_in_row("texts", id, "category_id", category),
        edit_col_in_row("texts", id, "meta_category_id", meta_category),
    ];
    match copy {
        Some(b) => {
            let flag: i64 = if b {
                1
            } else {
                0
            };
            edits.push(edit_col_in_row("texts", id, "copy_instead_of_view", Col::Integer(flag)));
        },
        None => {},
    }
    assert(edits@.map_values(|e: EditColInRowIn| e@) =~= text_save_spec(id, tv, bv, yv, cv, mv, copy));
    edits
}

} // verus!
