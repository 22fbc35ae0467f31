use vstd::prelude::*;
use crate::payload::{DeleteRowIn, EditColInRowIn, EditSpec, edit_spec};
use crate::row_col::{Col, ColSpec};
use crate::text::{decimal, int_to_string};

verus! {

/// Sets column `column` of row `row_id` of `table` to `value`.
pub fn edit_col_in_row(table: &str, row_id: i64, column: &str, value: Col) -> (e: EditColInRowIn)
    ensures
        e@ == edit_spec(table@, decimal(row_id as int), column@, value@),
{
    EditColInRowIn {
        table_name: table.to_string(),
        row_id: int_to_string(row_id),
        column: column.to_string(),
        new_value: value,
    }
}

pub fn edit_text_title(text_id: i64, new_title: String) -> (e: EditColInRowIn)
    ensures
        e@ == edit_spec("texts"@, decimal(text_id as int), "title"@, ColSpec::Text(new_title@)),
{
    edit_col_in_row("texts", text_id, "title", Col::Text(new_title))
}

pub fn edit_text_body(text_id: i64, new_body: String) -> (e: EditColInRowIn)
    ensures
        e@ == edit_spec("texts"@, decimal(text_id as int), "body"@, ColSpec::Text(new_body@)),
{
    edit_col_in_row("texts", text_id, "body", Col::Text(new_body))
}

pub fn edit_keyword_lookup_keyword(keyword_lookup_id: i64, new_keyword: String) -> (e:
    EditColInRowIn)
    ensures
        e@ == edit_spec(
            "keyword_lookup"@,
            decimal(keyword_lookup_id as int),
            "keyword"@,
            ColSpec::Text(new_keyword@),
        ),
{
    edit_col_in_row("keyword_lookup", keyword_lookup_id, "keyword", Col::Text(new_keyword))
}

pub fn edit_template_title(template_id: i64, new_title: String) -> (e: EditColInRowIn)
    ensures
        e@ == edit_spec(
            "templates"@,
            decimal(template_id as int),
            "title"@,
            ColSpec::Text(new_title@),
        ),
{
    edit_col_in_row("templates", template_id, "title", Col::Text(new_title))
}

pub fn edit_template_content(template_id: i64, new_content: String) -> (e: EditColInRowIn)
    ensures
        e@ == edit_spec(
            "templates"@,
            decimal(template_id as int),
            "content"@,
            ColSpec::Text(new_content@),
        ),
{
    edit_col_in_row("templates", template_id, "content", Col::Text(new_content))
}

pub fn edit_template_instructions(template_id: i64, new_instructions: String) -> (e:
    EditColInRowIn)
    ensures
        e@ == edit_spec(
            "templates"@,
            decimal(template_id as int),
            "instructions"@,
            ColSpec::Text(new_instructions@),
        ),
{
    edit_col_in_row("templates", template_id, "instructions", Col::Text(new_instructions))
}

pub fn edit_template_example(template_id: i64, new_example: String) -> (e: EditColInRowIn)
    ensures
        e@ == edit_spec(
            "templates"@,
            decimal(template_id as int),
            "example"@,
            ColSpec::Text(new_example@),
        ),
{
    edit_col_in_row("templates", template_id, "example", Col::Text(new_example))
}

pub fn edit_category_name(category_id: i64, new_name: String) -> (e: EditColInRowIn)
    ensures
        e@ == edit_spec(
            "categories"@,
            decimal(category_id as int),
            "name"@,
            ColSpec::Text(new_name@),
        ),
{
    edit_col_in_row("categories", category_id, "name", Col::Text(new_name))
}

/// Deletes the row of `table` with this id.
pub fn delete_by_id(table: &str, id: i64) -> (d: DeleteRowIn)
    ensures
        d@ == (table@, decimal(id as int)),
{
    DeleteRowIn { table_name: table.to_string(), row_id: int_to_string(id) }
}

} // verus!
