use vstd::prelude::*;
use crate::payload::{
    ArgSpec, ArgsSpec, ColumnValue, DeleteRowIn, GetDataIn, InsertDataIn, InsertSpec, JoinType,
    QuerySpec, SelectArgument, SelectArguments, deletes_view, insert_spec, query_spec,
    select_where_equal, strings_view,
};
use crate::row_col::{Col, ColSpec, Row, first_text, first_text_of, int_at, rows_view, text_at};
use crate::text::{decimal, int_to_string};

verus! {

/// Owner kinds a shortcut can be bound to.
pub const OWNER_MAIN_NAV: &'static str = "main_nav";
pub const OWNER_CATEGORY: &'static str = "category";
pub const OWNER_TEXT: &'static str = "text";
pub const OWNER_TEMPLATE: &'static str = "template";
pub const OWNER_PROJECT: &'static str = "project";

/// The rows of `shortcuts` that belong to (`kind`, `id`).
pub open spec fn owner_args(kind: Seq<char>, id: Seq<char>) -> ArgsSpec {
    ArgsSpec::Both(
        ArgSpec::XEqualY { x: "owner_kind"@, y: kind },
        ArgSpec::XEqualY { x: "owner_id"@, y: id },
    )
}

/// The query for one column of the shortcut rows of an owner.
pub fn shortcut_query(owner_kind: &str, owner_id: &str, column: &str) -> (q: GetDataIn)
    ensures
        q@ == query_spec("shortcuts"@, owner_args(owner_kind@, owner_id@), seq![column@]),
{
    let q = GetDataIn {
        table_name: "shortcuts".to_string(),
        arguments: SelectArguments::Two {
            first: SelectArgument::XEqualY {
                x: "owner_kind".to_string(),
                y: owner_kind.to_string(),
            },
            join: JoinType::And,
            second: SelectArgument::XEqualY { x: "owner_id".to_string(), y: owner_id.to_string() },
        },
        columns_to_read: vec![column.to_string()],
    };
    assert(q@.columns =~= seq![column@]);
    q
}

/// The query behind reading the combo bound to an owner.
pub fn read_shortcut_query(owner_kind: &str, owner_id: &str) -> (q: GetDataIn)
    ensures
        q@ == query_spec("shortcuts"@, owner_args(owner_kind@, owner_id@), seq!["combo"@]),
{
    shortcut_query(owner_kind, owner_id, "combo")
}

/// The combo read back: the text of the first column of the first row.
pub fn shortcut_from_rows(rows: &Vec<Row>) -> (r: Option<String>)
    ensures
        r matches Some(s) ==> first_text(rows_view(rows@)) == Some(s@),
        r is None ==> first_text(rows_view(rows@)) is None,
{
    first_text_of(rows)
}

/// The query for the owner that already uses a combo.
pub fn combo_owner_query(combo: &str) -> (q: GetDataIn)
    ensures
        q@ == query_spec(
            "shortcuts"@,
            ArgsSpec::Single(ArgSpec::XEqualY { x: "combo"@, y: combo@ }),
            seq!["owner_kind"@, "owner_id"@],
        ),
{
    let q = select_where_equal(
        "shortcuts",
        "combo",
        combo,
        vec!["owner_kind".to_string(), "owner_id".to_string()],
    );
    assert(strings_view(q.columns_to_read@) =~= seq!["owner_kind"@, "owner_id"@]);
    q
}

/// The owner read back: the texts of the first two columns of the first row,
/// when both are texts.
pub open spec fn combo_owner_spec(rows: Seq<Seq<ColSpec>>) -> Option<(Seq<char>, Seq<char>)> {
    if rows.len() > 0 {
        match (text_at(rows[0], 0), text_at(rows[0], 1)) {
            (Some(kind), Some(id)) => Some((kind, id)),
            _ => None,
        }
    } else {
        None
    }
}

pub fn combo_owner_of(rows: &Vec<Row>) -> (r: Option<(String, String)>)
    ensures
        r matches Some(p) ==> combo_owner_spec(rows_view(rows@)) == Some((p.0@, p.1@)),
        r is None ==> combo_owner_spec(rows_view(rows@)) is None,
{
    if rows.len() == 0 {
        return None;
    }
    match (rows[0].text_at(0), rows[0].text_at(1)) {
        (Some(kind), Some(id)) => Some((kind, id)),
        _ => None,
    }
}

/// The ids in the first column of the rows that hold one there, in order.
pub open spec fn id_rows(rows: Seq<Seq<ColSpec>>) -> Seq<int>
    decreases rows.len(),
{
    if rows.len() == 0 {
        Seq::empty()
    } else {
        let rest = id_rows(rows.drop_last());
        match int_at(rows.last(), 0) {
            Some(v) => rest.push(v),
            None => rest,
        }
    }
}

/// One deletion of a row of `table` for each row that came back with an id.
pub fn deletes_for_rows(table: &str, rows: &Vec<Row>) -> (d: Vec<DeleteRowIn>)
    ensures
        deletes_view(d@) == id_rows(rows_view(rows@)).map_values(|i: int| (table@, decimal(i))),
{
    let ghost all = rows_view(rows@);
    let mut d: Vec<DeleteRowIn> = Vec::new();
    let mut k: usize = 0;
    while k < rows.len()
        invariant
            k <= rows@.len(),
            all == rows_view(rows@),
            deletes_view(d@) =~= id_rows(all.take(k as int)).map_values(
                |i: int| (table@, decimal(i)),
            ),
        decreases rows@.len() - k,
    {
        let ghost before = d@;
        assert(all.take(k + 1).drop_last() =~= all.take(k as int));
        assert(all.take(k + 1).last() == rows@[k as int]@);
        match rows[k].int_at(0) {
            Some(id) => {
                let del = DeleteRowIn { table_name: table.to_string(), row_id: int_to_string(id) };
                d.push(del);
                assert(deletes_view(d@) =~= deletes_view(before).push((table@, decimal(id as int))));
            },
            None => {},
        }
        k += 1;
    }
    assert(all.take(rows@.len() as int) =~= all);
    d
}

/// The query for the ids of an owner's shortcut rows, which clearing deletes.
pub fn clear_shortcut_query(owner_kind: &str, owner_id: &str) -> (q: GetDataIn)
    ensures
        q@ == query_spec("shortcuts"@, owner_args(owner_kind@, owner_id@), seq!["id"@]),
{
    shortcut_query(owner_kind, owner_id, "id")
}

/// The row that binds `combo` to (`owner_kind`, `owner_id`).
pub fn shortcut_row(owner_kind: &str, owner_id: &str, combo: &str) -> (r: InsertDataIn)
    ensures
        r@ == insert_spec(
            "shortcuts"@,
            seq![
                ("owner_kind"@, ColSpec::Text(owner_kind@)),
                ("owner_id"@, ColSpec::Text(owner_id@)),
                ("combo"@, ColSpec::Text(combo@)),
            ],
        ),
{
    let r = InsertDataIn {
        table_name: "shortcuts".to_string(),
        values: vec![
            ColumnValue {
                column_name: "owner_kind".to_string(),
                value: Col::Text(owner_kind.to_string()),
            },
            ColumnValue { column_name: "owner_id".to_string(), value: Col::Text(owner_id.to_string()) },
            ColumnValue { column_name: "combo".to_string(), value: Col::Text(combo.to_string()) },
        ],
    };
    assert(r@.values =~= seq![
        ("owner_kind"@, ColSpec::Text(owner_kind@)),
        ("owner_id"@, ColSpec::Text(owner_id@)),
        ("combo"@, ColSpec::Text(combo@)),
    ]);
    r
}

} // verus!
