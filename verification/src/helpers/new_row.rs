use vstd::prelude::*;
use crate::parsed::{NewTemplate, NewText};
use crate::payload::{ColumnValue, InsertDataIn, InsertSpec, insert_spec};
use crate::row_col::{Col, ColSpec};
use crate::text::opt_view;

verus! {

/// An optional id as a column value: the id, or NULL.
pub open spec fn id_or_null(id: Option<i64>) -> ColSpec {
    match id {
        Some(i) => ColSpec::Integer(i as int),
        None => ColSpec::Null,
    }
}

/// An optional text as a column value: a non-empty text, or NULL.
pub open spec fn nonempty_text_or_null(t: Option<Seq<char>>) -> ColSpec {
    match t {
        Some(s) => if s.len() > 0 {
            ColSpec::Text(s)
        } else {
            ColSpec::Null
        },
        None => ColSpec::Null,
    }
}

pub open spec fn flag_col(b: bool) -> ColSpec {
    ColSpec::Integer(if b { 1 } else { 0 })
}

pub open spec fn text_row_spec(
    title: Seq<char>,
    body: Seq<char>,
    category_id: Option<i64>,
    meta_category_id: Option<i64>,
    type_of_text: Option<Seq<char>>,
    copy_instead_of_view: bool,
) -> InsertSpec {
    insert_spec(
        "texts"@,
        seq![
            ("title"@, ColSpec::Text(title)),
            ("body"@, ColSpec::Text(body)),
            ("category_id"@, id_or_null(category_id)),
            ("meta_category_id"@, id_or_null(meta_category_id)),
            ("type_of_text"@, nonempty_text_or_null(type_of_text)),
            ("copy_instead_of_view"@, flag_col(copy_instead_of_view)),
        ],
    )
}

pub open spec fn template_row_spec(
    title: Seq<char>,
    content: Seq<char>,
    instructions: Seq<char>,
    example: Seq<char>,
    category_id: Option<i64>,
    meta_category_id: Option<i64>,
) -> InsertSpec {
    insert_spec(
        "templates"@,
        seq![
            ("title"@, ColSpec::Text(title)),
            ("content"@, ColSpec::Text(content)),
            ("instructions"@, ColSpec::Text(instructions)),
            ("example"@, ColSpec::Text(example)),
            ("category_id"@, id_or_null(category_id)),
            ("meta_category_id"@, id_or_null(meta_category_id)),
        ],
    )
}

fn id_value(id: Option<i64>) -> (c: Col)
    ensures
        c@ == id_or_null(id),
{
    match id {
        Some(i) => Col::Integer(i),
        None => Col::Null,
    }
}

/// A text without category, type or copy flag.
pub fn new_row_text(title: String, body: String) -> (row: InsertDataIn)
    ensures
        row@ == text_row_spec(title@, body@, None, None, None, false),
{
    new_row_text_with_category(title, body, None, None, None, false)
}

pub fn new_row_text_with_category(
    title: String,
    body: String,
    category_id: Option<i64>,
    meta_category_id: Option<i64>,
    type_of_text: Option<String>,
    copy_instead_of_view: bool,
) -> (row: InsertDataIn)
    ensures
        row@ == text_row_spec(
            title@,
            body@,
            category_id,
            meta_category_id,
            opt_view(type_of_text),
            copy_instead_of_view,
        ),
{
    let ghost tv = title@;
    let ghost bv = body@;
    let ghost ty = opt_view(type_of_text);
    let type_value = match type_of_text {
        Some(s) => if !s.as_str().is_empty() {
            Col::Text(s)
        } else {
            Col::Null
        },
        None => Col::Null,
    };
    let row = InsertDataIn {
        table_name: "texts".to_string(),
        values: vec![
            ColumnValue { column_name: "title".to_string(), value: Col::Text(title) },
            ColumnValue { column_name: "body".to_string(), value: Col::Text(body) },
            ColumnValue { column_name: "category_id".to_string(), value: id_value(category_id) },
            ColumnValue {
                column_name: "meta_category_id".to_string(),
                value: id_value(meta_category_id),
            },
            ColumnValue { column_name: "type_of_text".to_string(), value: type_value },
            ColumnValue {
                column_name: "copy_instead_of_view".to_string(),
                value: Col::Integer(if copy_instead_of_view { 1 } else { 0 }),
            },
        ],
    };
    assert(row@.values =~= text_row_spec(
        tv,
        bv,
        category_id,
        meta_category_id,
        ty,
        copy_instead_of_view,
    ).values);
    row
}

pub fn new_row_template(
    title: String,
    content: String,
    instructions: String,
    example: String,
    category_id: Option<i64>,
    meta_category_id: Option<i64>,
) -> (row: InsertDataIn)
    ensures
        row@ == template_row_spec(
            title@,
            content@,
            instructions@,
            example@,
            category_id,
            meta_category_id,
        ),
{
    let ghost spec = template_row_spec(
        title@,
        content@,
        instructions@,
        example@,
        category_id,
        meta_category_id,
    );
    let row = InsertDataIn {
        table_name: "templates".to_string(),
        values: vec![
            ColumnValue { column_name: "title".to_string(), value: Col::Text(title) },
            ColumnValue { column_name: "content".to_string(), value: Col::Text(content) },
            ColumnValue { column_name: "instructions".to_string(), value: Col::Text(instructions) },
            ColumnValue { column_name: "example".to_string(), value: Col::Text(example) },
            ColumnValue { column_name: "category_id".to_string(), value: id_value(category_id) },
            ColumnValue {
                column_name: "meta_category_id".to_string(),
                value: id_value(meta_category_id),
            },
        ],
    };
    assert(row@.values =~= spec.values);
    row
}

pub fn new_row_keyword_lookup(text_id: i64, keyword: String) -> (row: InsertDataIn)
    ensures
        row@ == insert_spec(
            "keyword_lookup"@,
            seq![("text_id"@, ColSpec::Integer(text_id as int)), ("keyword"@, ColSpec::Text(keyword@))],
        ),
{
    let ghost kv = keyword@;
    let row = InsertDataIn {
        table_name: "keyword_lookup".to_string(),
        values: vec![
            ColumnValue { column_name: "text_id".to_string(), value: Col::Integer(text_id) },
            ColumnValue { column_name: "keyword".to_string(), value: Col::Text(keyword) },
        ],
    };
    assert(row@.values =~= seq![
        ("text_id"@, ColSpec::Integer(text_id as int)),
        ("keyword"@, ColSpec::Text(kv)),
    ]);
    row
}

/// The row for an imported text, once its category names are resolved to
/// ids (`None` for no category); a missing copy flag means false.
pub fn create_text_from_new_text(
    nt: NewText,
    category_id: Option<i64>,
    meta_category_id: Option<i64>,
) -> (row: InsertDataIn)
    ensures
        row@ == text_row_spec(
            nt.title@,
            nt.body@,
            category_id,
            meta_category_id,
            opt_view(nt.type_of_text),
            match nt.copy_instead_of_view {
                Some(b) => b,
                None => false,
            },
        ),
{
    let civ = match nt.copy_instead_of_view {
        Some(b) => b,
        None => false,
    };
    new_row_text_with_category(
        nt.title,
        nt.body,
        category_id,
        meta_category_id,
        nt.type_of_text,
        civ,
    )
}

/// The row for an imported template, once its category names are resolved
/// to ids; missing instructions or example are stored as empty text.
pub fn create_template_from_new_template(
    nt: NewTemplate,
    category_id: Option<i64>,
    meta_category_id: Option<i64>,
) -> (row: InsertDataIn)
    ensures
        row@ == template_row_spec(
            nt.title@,
            nt.content@,
            match opt_view(nt.instructions) {
                Some(s) => s,
                None => Seq::empty(),
            },
            match opt_view(nt.example) {
                Some(s) => s,
                None => Seq::empty(),
            },
            category_id,
            meta_category_id,
        ),
{
    let instructions = match nt.instructions {
        Some(s) => s,
        None => String::new(),
    };
    let example = match nt.example {
        Some(s) => s,
        None => String::new(),
    };
    new_row_template(
        nt.title,
        nt.content,
        instructions,
        example,
        category_id,
        meta_category_id,
    )
}

/// A text typed into an optional field: none while it is empty.
pub fn optional_text(s: String) -> (r: Option<String>)
    ensures
        s@.len() == 0 ==> r is None,
        s@.len() > 0 ==> r == Some(s),
{
    if s.as_str().is_empty() {
        None
    } else {
        Some(s)
    }
}

} // verus!
