use vstd::prelude::*;
use crate::payload::{
    ArgSpec, ArgsSpec, GetDataIn, QuerySpec, SelectArgument, SelectArguments, query_spec,
    select_all,
};
use crate::text::concat3;

verus! {

/// What a search of `column` of `table` for `query` asks: every row when the
/// query is empty, otherwise the rows where the column contains the query.
pub open spec fn search_spec(table: Seq<char>, column: Seq<char>, query: Seq<char>) -> QuerySpec {
    if query.len() == 0 {
        query_spec(table, ArgsSpec::Single(ArgSpec::All), Seq::empty())
    } else {
        query_spec(
            table,
            ArgsSpec::Single(ArgSpec::XLikeY { x: column, y: seq!['%'] + query + seq!['%'] }),
            Seq::empty(),
        )
    }
}

/// The query behind a search box over one column of a table.
pub fn search_query(table_name: &str, column: &str, query: &str) -> (q: GetDataIn)
    ensures
        q@ == search_spec(table_name@, column@, query@),
{
    if query.is_empty() {
        return select_all(table_name);
    }
    let pattern = concat3("%", query, "%");
    proof {
        reveal_strlit("%");
        assert("%"@ =~= seq!['%']);
    }
    let q = GetDataIn {
        table_name: table_name.to_string(),
        arguments: SelectArguments::Single(
            SelectArgument::XLikeY { x: column.to_string(), y: pattern },
        ),
        columns_to_read: Vec::new(),
    };
    assert(q@.columns =~= Seq::empty());
    q
}

/// Texts whose title contains the query (all texts for an empty query).
pub fn search_texts_by_title(query: &str) -> (q: GetDataIn)
    ensures
        q@ == search_spec("texts"@, "title"@, query@),
{
    search_query("texts", "title", query)
}

/// Keyword lookups whose keyword contains the query.
pub fn search_keyword_lookups_by_keyword(query: &str) -> (q: GetDataIn)
    ensures
        q@ == search_spec("keyword_lookup"@, "keyword"@, query@),
{
    search_query("keyword_lookup", "keyword", query)
}

/// Templates whose title contains the query.
pub fn search_templates_by_title(query: &str) -> (q: GetDataIn)
    ensures
        q@ == search_spec("templates"@, "title"@, query@),
{
    search_query("templates", "title", query)
}

} // verus!
