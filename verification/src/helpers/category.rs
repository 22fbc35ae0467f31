use vstd::prelude::*;
use crate::error_stuff::DbError;
use crate::payload::{
    ArgSpec, ArgsSpec, ColumnValue, GetDataIn, InsertDataIn, InsertSpec, JoinType, QuerySpec,
    SelectArgument, SelectArguments, insert_spec, query_spec, select_all, select_where_equal,
};
use crate::row_col::{Col, ColSpec, Row, int_at, rows_view, text_at};
use crate::text::{decimal, int_to_string, trim, trimmed};

verus! {

/// The type of an ordinary category.
pub const TYPE_NORMAL: &'static str = "normal";

/// The type of a meta category.
pub const TYPE_META: &'static str = "meta";

/// The query for the id of the category with this name and type.
pub fn find_category_query(name: &str, type_of_category: &str) -> (q: GetDataIn)
    ensures
        q@ == query_spec(
            "categories"@,
            ArgsSpec::Both(
                ArgSpec::XEqualY { x: "name"@, y: name@ },
                ArgSpec::XEqualY { x: "type_of_category"@, y: type_of_category@ },
            ),
            seq!["id"@],
        ),
{
    let q = GetDataIn {
        table_name: "categories".to_string(),
        arguments: SelectArguments::Two {
            first: SelectArgument::XEqualY { x: "name".to_string(), y: name.to_string() },
            join: JoinType::And,
            second: SelectArgument::XEqualY {
                x: "type_of_category".to_string(),
                y: type_of_category.to_string(),
            },
        },
        columns_to_read: vec!["id".to_string()],
    };
    assert(q@.columns =~= seq!["id"@]);
    q
}

/// The row that creates a category.
pub fn new_category_row(name: &str, type_of_category: &str) -> (row: InsertDataIn)
    ensures
        row@ == insert_spec(
            "categories"@,
            seq![
                ("name"@, ColSpec::Text(name@)),
                ("type_of_category"@, ColSpec::Text(type_of_category@)),
            ],
        ),
{
    let row = InsertDataIn {
        table_name: "categories".to_string(),
        values: vec![
            ColumnValue { column_name: "name".to_string(), value: Col::Text(name.to_string()) },
            ColumnValue {
                column_name: "type_of_category".to_string(),
                value: Col::Text(type_of_category.to_string()),
            },
        ],
    };
    assert(row@.values =~= seq![
        ("name"@, ColSpec::Text(name@)),
        ("type_of_category"@, ColSpec::Text(type_of_category@)),
    ]);
    row
}

/// After a category was inserted, looking it up again must find it.
pub fn category_id_after_insert(found: Option<i64>) -> (r: Result<i64, DbError>)
    ensures
        found matches Some(id) ==> r == Ok::<i64, DbError>(id),
        found is None ==> (r matches Err(DbError::BadCode(m)) && m@
            == "category vanished after insert"@),
{
    match found {
        Some(id) => Ok(id),
        None => Err(DbError::BadCode("category vanished after insert".to_string())),
    }
}

/// The (id, name) of each row that holds an integer in its first column and
/// text in its second, in order; other rows are skipped.
pub open spec fn id_name_pairs(rows: Seq<Seq<ColSpec>>) -> Seq<(int, Seq<char>)>
    decreases rows.len(),
{
    if rows.len() == 0 {
        Seq::empty()
    } else {
        let rest = id_name_pairs(rows.drop_last());
        match (int_at(rows.last(), 0), text_at(rows.last(), 1)) {
            (Some(id), Some(name)) => rest.push((id, name)),
            _ => rest,
        }
    }
}

/// The (id, name, type) of each row that holds an integer in its first column
/// and text in its second and third, in order; other rows are skipped.
pub open spec fn id_name_type_triples(rows: Seq<Seq<ColSpec>>) -> Seq<(int, Seq<char>, Seq<char>)>
    decreases rows.len(),
{
    if rows.len() == 0 {
        Seq::empty()
    } else {
        let rest = id_name_type_triples(rows.drop_last());
        match (int_at(rows.last(), 0), text_at(rows.last(), 1), text_at(rows.last(), 2)) {
            (Some(id), Some(name), Some(t)) => rest.push((id, name, t)),
            _ => rest,
        }
    }
}

pub open spec fn pairs_view(v: Seq<(i64, String)>) -> Seq<(int, Seq<char>)> {
    v.map_values(|p: (i64, String)| (p.0 as int, p.1@))
}

pub open spec fn triples_view(v: Seq<(i64, String, String)>) -> Seq<(int, Seq<char>, Seq<char>)> {
    v.map_values(|p: (i64, String, String)| (p.0 as int, p.1@, p.2@))
}

/// The query for (id, name) of every category of a type.
pub fn categories_by_type_query(type_of_category: &str) -> (q: GetDataIn)
    ensures
        q@ == query_spec(
            "categories"@,
            ArgsSpec::Single(ArgSpec::XEqualY { x: "type_of_category"@, y: type_of_category@ }),
            seq!["id"@, "name"@],
        ),
{
    let cols = vec!["id".to_string(), "name".to_string()];
    let q = select_where_equal("categories", "type_of_category", type_of_category, cols);
    assert(q@.columns =~= seq!["id"@, "name"@]);
    q
}

/// The query for (id, name, type) of every category.
pub fn all_categories_query() -> (q: GetDataIn)
    ensures
        q@ == query_spec(
            "categories"@,
            ArgsSpec::Single(ArgSpec::All),
            seq!["id"@, "name"@, "type_of_category"@],
        ),
{
    let q = GetDataIn {
        table_name: "categories".to_string(),
        arguments: SelectArguments::Single(SelectArgument::All),
        columns_to_read: vec!["id".to_string(), "name".to_string(), "type_of_category".to_string()],
    };
    assert(q@.columns =~= seq!["id"@, "name"@, "type_of_category"@]);
    q
}

/// The query for the name of the category with this id.
pub fn category_name_query(id: i64) -> (q: GetDataIn)
    ensures
        q@ == query_spec(
            "categories"@,
            ArgsSpec::Single(ArgSpec::XEqualY { x: "id"@, y: decimal(id as int) }),
            seq!["name"@],
        ),
{
    let key = int_to_string(id);
    let q = select_where_equal("categories", "id", key.as_str(), vec!["name".to_string()]);
    assert(q@.columns =~= seq!["name"@]);
    q
}

pub fn read_id_name_pairs(rows: &Vec<Row>) -> (pairs: Vec<(i64, String)>)
    ensures
        pairs_view(pairs@) == id_name_pairs(rows_view(rows@)),
{
    let mut pairs: Vec<(i64, String)> = Vec::new();
    let n = rows.len();
    let mut i: usize = 0;
    while i < n
        invariant
            n == rows@.len(),
            i <= n,
            pairs_view(pairs@) == id_name_pairs(rows_view(rows@.take(i as int))),
        decreases n - i,
    {
        let ghost before = pairs@;
        assert(rows_view(rows@.take(i + 1)).drop_last() =~= rows_view(rows@.take(i as int)));
        assert(rows_view(rows@.take(i + 1)).last() == rows@[i as int]@);
        match (rows[i].int_at(0), rows[i].text_at(1)) {
            (Some(id), Some(name)) => {
                pairs.push((id, name));
                assert(pairs_view(pairs@) =~= pairs_view(before).push((id as int, name@)));
            },
            _ => {},
        }
        i += 1;
    }
    assert(rows@.take(n as int) =~= rows@);
    pairs
}

pub fn read_id_name_type_triples(rows: &Vec<Row>) -> (triples: Vec<(i64, String, String)>)
    ensures
        triples_view(triples@) == id_name_type_triples(rows_view(rows@)),
{
    let mut triples: Vec<(i64, String, String)> = Vec::new();
    let n = rows.len();
    let mut i: usize = 0;
    while i < n
        invariant
            n == rows@.len(),
            i <= n,
            triples_view(triples@) == id_name_type_triples(rows_view(rows@.take(i as int))),
        decreases n - i,
    {
        let ghost before = triples@;
        assert(rows_view(rows@.take(i + 1)).drop_last() =~= rows_view(rows@.take(i as int)));
        assert(rows_view(rows@.take(i + 1)).last() == rows@[i as int]@);
        match (rows[i].int_at(0), rows[i].text_at(1), rows[i].text_at(2)) {
            (Some(id), Some(name), Some(t)) => {
                triples.push((id, name, t));
                assert(triples_view(triples@) =~= triples_view(before).push(
                    (id as int, name@, t@),
                ));
            },
            _ => {},
        }
        i += 1;
    }
    assert(rows@.take(n as int) =~= rows@);
    triples
}

/// The category name to look up or create for a name typed by the user: the
/// name trimmed, or none when nothing but white space is left.
pub open spec fn category_name_to_resolve(name: Seq<char>) -> Option<Seq<char>> {
    if trimmed(name).len() == 0 {
        None
    } else {
        Some(trimmed(name))
    }
}

/// An empty name means no category; otherwise its trimmed form is the
/// category to find or create.
pub fn category_to_resolve(name: &str) -> (r: Option<&str>)
    ensures
        match r {
            Some(s) => category_name_to_resolve(name@) == Some(s@),
            None => category_name_to_resolve(name@) is None,
        },
{
    let t = trim(name);
    if t.is_empty() {
        None
    } else {
        Some(t)
    }
}

/// A category id as a column value: the id, or NULL which clears the column.
pub fn category_col(id: Option<i64>) -> (c: Col)
    ensures
        c@ == match id {
            Some(i) => ColSpec::Integer(i as int),
            None => ColSpec::Null,
        },
{
    match id {
        Some(i) => Col::Integer(i),
        None => Col::Null,
    }
}

} // verus!
