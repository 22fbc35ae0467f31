use vstd::prelude::*;
use crate::payload::{
    ArgSpec, ArgsSpec, GetDataIn, QuerySpec, SelectArgument, SelectArguments, query_spec,
    strings_view,
};
use crate::row_col::{ColSpec, Row, rows_view};
use crate::text::{decimal, int_to_string};

verus! {

/// The decimal forms of a list of ids, in order.
pub open spec fn decimals(ids: Seq<i64>) -> Seq<Seq<char>> {
    ids.map_values(|i: i64| decimal(i as int))
}

/// The query for every column of the rows of `table_name` whose id is one of `ids`.
pub fn by_ids_query(table_name: &str, ids: &Vec<i64>) -> (q: GetDataIn)
    ensures
        q@ == query_spec(
            table_name@,
            ArgsSpec::Single(ArgSpec::XInY { x: "id"@, y: decimals(ids@) }),
            Seq::empty(),
        ),
{
    let mut id_strings: Vec<String> = Vec::new();
    let mut k: usize = 0;
    while k < ids.len()
        invariant
            k <= ids@.len(),
            strings_view(id_strings@) =~= decimals(ids@.take(k as int)),
        decreases ids@.len() - k,
    {
        let ghost before = id_strings@;
        let s = int_to_string(ids[k]);
        id_strings.push(s);
        assert(strings_view(id_strings@) =~= strings_view(before).push(s@));
        assert(ids@.take(k + 1) =~= ids@.take(k as int).push(ids@[k as int]));
        assert(decimals(ids@.take(k + 1)) =~= decimals(ids@.take(k as int)).push(decimal(ids@[k as int] as int)));
        k += 1;
    }
    assert(ids@.take(ids@.len() as int) =~= ids@);
    let q = GetDataIn {
        table_name: table_name.to_string(),
        arguments: SelectArguments::Single(
            SelectArgument::XInY { x: "id".to_string(), y: id_strings },
        ),
        columns_to_read: Vec::new(),
    };
    assert(q@.columns =~= Seq::empty());
    q
}

/// The query for one row by id.
pub fn by_id_query(table_name: &str, id: i64) -> (q: GetDataIn)
    ensures
        q@ == query_spec(
            table_name@,
            ArgsSpec::Single(ArgSpec::XInY { x: "id"@, y: seq![decimal(id as int)] }),
            Seq::empty(),
        ),
{
    let ids = vec![id];
    let q = by_ids_query(table_name, &ids);
    assert(decimals(ids@) =~= seq![decimal(id as int)]);
    q
}

/// The first row that came back, if any.
pub fn first_row(rows: Vec<Row>) -> (r: Option<Row>)
    ensures
        rows@.len() == 0 ==> r is None,
        rows@.len() > 0 ==> (r matches Some(row) && row@ == rows_view(rows@)[0]),
{
    let mut rows = rows;
    if rows.len() == 0 {
        None
    } else {
        Some(rows.swap_remove(0))
    }
}

} // verus!
