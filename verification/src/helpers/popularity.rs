use vstd::prelude::*;
use crate::helpers::edit::edit_col_in_row;
use crate::payload::{
    ArgSpec, ArgsSpec, ColumnValue, EditColInRowIn, EditSpec, GetDataIn, InsertDataIn, InsertSpec,
    QuerySpec, edit_spec, insert_spec, query_spec, select_where_equal,
};
use crate::row_col::{Col, ColSpec, Row, first_int, first_int_of, int_at, rows_view};
use crate::text::{decimal, int_to_string};

verus! {

/// The entries of the root circle, which count their clicks by name.
pub const MAIN_NAV_NAMES: [&'static str; 5] = [
    "Templates",
    "AI Prompts",
    "Text",
    "Terminal Commands",
    "Projects",
];

/// The query for the click counter of the row with this id.
pub fn counter_query(table: &str, id: i64) -> (q: GetDataIn)
    ensures
        q@ == query_spec(
            table@,
            ArgsSpec::Single(ArgSpec::XEqualY { x: "id"@, y: decimal(id as int) }),
            seq!["popularity_ctr"@],
        ),
{
    let key = int_to_string(id);
    let q = select_where_equal(table, "id", key.as_str(), vec!["popularity_ctr".to_string()]);
    assert(q@.columns =~= seq!["popularity_ctr"@]);
    q
}

/// A counter read back: the integer in the first column of the first row,
/// or 0 when there is none.
pub open spec fn counter_of(rows: Seq<Seq<ColSpec>>) -> int {
    match first_int(rows) {
        Some(v) => v,
        None => 0,
    }
}

pub fn counter_value(rows: &Vec<Row>) -> (v: i64)
    ensures
        v == counter_of(rows_view(rows@)),
{
    match first_int_of(rows) {
        Some(v) => v,
        None => 0,
    }
}

/// A counter as the menu shows it: the stored value cut to 32 bits.
pub fn counter_for_display(rows: &Vec<Row>) -> (v: u32)
    ensures
        v == counter_of(rows_view(rows@)) as u32,
{
    let c = counter_value(rows);
    c as u32
}

/// Raises the counter of row `id` of `table` from `current` by one.
pub fn bump_edit(table: &str, id: i64, current: i64) -> (e: EditColInRowIn)
    requires
        current < i64::MAX,
    ensures
        e@ == edit_spec(table@, decimal(id as int), "popularity_ctr"@, ColSpec::Integer(current + 1)),
{
    edit_col_in_row(table, id, "popularity_ctr", Col::Integer(current + 1))
}

/// The query for the main-navigation row with this name.
pub fn main_nav_query(name: &str, columns: Vec<String>) -> (q: GetDataIn)
    ensures
        q@ == query_spec(
            "main_nav_clicks"@,
            ArgsSpec::Single(ArgSpec::XEqualY { x: "name"@, y: name@ }),
            crate::payload::strings_view(columns@),
        ),
{
    select_where_equal("main_nav_clicks", "name", name, columns)
}

/// What counting one click on a main-navigation entry writes.
pub enum MainNavWrite {
    /// The first click: a new row with the counter at one.
    Insert(InsertDataIn),
    /// A later click: the stored counter raised by one.
    Edit(EditColInRowIn),
}

/// The id and counter of the first row read back (id, popularity_ctr), 0 where missing.
pub open spec fn main_nav_id(rows: Seq<Seq<ColSpec>>) -> int {
    match int_at(rows[0], 0) {
        Some(v) => v,
        None => 0,
    }
}

pub open spec fn main_nav_counter(rows: Seq<Seq<ColSpec>>) -> int {
    match int_at(rows[0], 1) {
        Some(v) => v,
        None => 0,
    }
}

/// The counter of the first row read back (id, popularity_ctr).
pub fn main_nav_counter_of(rows: &Vec<Row>) -> (c: i64)
    requires
        rows@.len() > 0,
    ensures
        c == main_nav_counter(rows_view(rows@)),
{
    assert(rows_view(rows@)[0] == rows@[0]@);
    match rows[0].int_at(1) {
        Some(v) => v,
        None => 0,
    }
}

/// Counts a click on the entry `name`, given the rows (id, popularity_ctr)
/// stored for it.
pub fn main_nav_bump(name: &str, rows: &Vec<Row>) -> (w: MainNavWrite)
    requires
        rows@.len() > 0 ==> main_nav_counter(rows_view(rows@)) < i64::MAX,
    ensures
        rows@.len() == 0 ==> (w matches MainNavWrite::Insert(row) && row@ == insert_spec(
            "main_nav_clicks"@,
            seq![("name"@, ColSpec::Text(name@)), ("popularity_ctr"@, ColSpec::Integer(1))],
        )),
        rows@.len() > 0 ==> (w matches MainNavWrite::Edit(e) && e@ == edit_spec(
            "main_nav_clicks"@,
            decimal(main_nav_id(rows_view(rows@))),
            "popularity_ctr"@,
            ColSpec::Integer(main_nav_counter(rows_view(rows@)) + 1),
        )),
{
    if rows.len() == 0 {
        let row = InsertDataIn {
            table_name: "main_nav_clicks".to_string(),
            values: vec![
                ColumnValue { column_name: "name".to_string(), value: Col::Text(name.to_string()) },
                ColumnValue { column_name: "popularity_ctr".to_string(), value: Col::Integer(1) },
            ],
        };
        assert(row@.values =~= seq![
            ("name"@, ColSpec::Text(name@)),
            ("popularity_ctr"@, ColSpec::Integer(1)),
        ]);
        MainNavWrite::Insert(row)
    } else {
        assert(rows_view(rows@)[0] == rows@[0]@);
        let id = match rows[0].int_at(0) {
            Some(v) => v,
            None => 0,
        };
        let ctr = match rows[0].int_at(1) {
            Some(v) => v,
            None => 0,
        };
        MainNavWrite::Edit(bump_edit("main_nav_clicks", id, ctr))
    }
}

} // verus!
