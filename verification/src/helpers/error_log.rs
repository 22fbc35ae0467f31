use vstd::prelude::*;
use crate::payload::{
    ArgSpec, ArgsSpec, ColumnValue, GetDataIn, InsertDataIn, InsertSpec, QuerySpec,
    SelectArgument, SelectArguments, insert_spec, query_spec,
};
use crate::row_col::{Col, ColSpec, Row, int_at, rows_view, text_or_empty};
use vstd::set_lib::{lemma_int_range, lemma_subset_equality, set_int_range};

verus! {

/// The row that records one error at time `timestamp` (milliseconds since the epoch).
pub fn error_row(timestamp: i64, screen: &str, location: &str, detail: &str) -> (r: InsertDataIn)
    ensures
        r@ == insert_spec(
            "error_log"@,
            seq![
                ("timestamp"@, ColSpec::Integer(timestamp as int)),
                ("screen"@, ColSpec::Text(screen@)),
                ("location"@, ColSpec::Text(location@)),
                ("detail"@, ColSpec::Text(detail@)),
            ],
        ),
{
    let r = InsertDataIn {
        table_name: "error_log".to_string(),
        values: vec![
            ColumnValue { column_name: "timestamp".to_string(), value: Col::Integer(timestamp) },
            ColumnValue { column_name: "screen".to_string(), value: Col::Text(screen.to_string()) },
            ColumnValue {
                column_name: "location".to_string(),
                value: Col::Text(location.to_string()),
            },
            ColumnValue { column_name: "detail".to_string(), value: Col::Text(detail.to_string()) },
        ],
    };
    assert(r@.values =~= seq![
        ("timestamp"@, ColSpec::Integer(timestamp as int)),
        ("screen"@, ColSpec::Text(screen@)),
        ("location"@, ColSpec::Text(location@)),
        ("detail"@, ColSpec::Text(detail@)),
    ]);
    r
}

/// The query for every logged error, four columns each.
pub fn recent_errors_query() -> (q: GetDataIn)
    ensures
        q@ == query_spec(
            "error_log"@,
            ArgsSpec::Single(ArgSpec::All),
            seq!["timestamp"@, "screen"@, "location"@, "detail"@],
        ),
{
    let q = GetDataIn {
        table_name: "error_log".to_string(),
        arguments: SelectArguments::Single(SelectArgument::All),
        columns_to_read: vec![
            "timestamp".to_string(),
            "screen".to_string(),
            "location".to_string(),
            "detail".to_string(),
        ],
    };
    assert(q@.columns =~= seq!["timestamp"@, "screen"@, "location"@, "detail"@]);
    q
}

/// One logged error.
#[derive(Debug)]
pub struct ErrorRow {
    pub timestamp: i64,
    pub screen: String,
    pub location: String,
    pub detail: String,
}

pub struct ErrorRowSpec {
    pub timestamp: int,
    pub screen: Seq<char>,
    pub location: Seq<char>,
    pub detail: Seq<char>,
}

impl View for ErrorRow {
    type V = ErrorRowSpec;

    open spec fn view(&self) -> ErrorRowSpec {
        ErrorRowSpec {
            timestamp: self.timestamp as int,
            screen: self.screen@,
            location: self.location@,
            detail: self.detail@,
        }
    }
}

pub open spec fn errors_view(v: Seq<ErrorRow>) -> Seq<ErrorRowSpec> {
    v.map_values(|e: ErrorRow| e@)
}

/// An error read back from its row: a missing timestamp reads as 0 and a
/// missing text as the empty text.
pub open spec fn error_spec_of(row: Seq<ColSpec>) -> ErrorRowSpec {
    ErrorRowSpec {
        timestamp: match int_at(row, 0) {
            Some(v) => v,
            None => 0,
        },
        screen: text_or_empty(row, 1),
        location: text_or_empty(row, 2),
        detail: text_or_empty(row, 3),
    }
}

/// The errors read from the rows, in the order the rows came.
pub open spec fn errors_of_rows(rows: Seq<Seq<ColSpec>>) -> Seq<ErrorRowSpec> {
    rows.map_values(|r: Seq<ColSpec>| error_spec_of(r))
}

pub fn error_from_row(row: &Row) -> (e: ErrorRow)
    ensures
        e@ == error_spec_of(row@),
{
    let timestamp = match row.int_at(0) {
        Some(v) => v,
        None => 0,
    };
    ErrorRow {
        timestamp,
        screen: row.text_or_empty(1),
        location: row.text_or_empty(2),
        detail: row.text_or_empty(3),
    }
}

/// `out` is `input` rearranged by `p` (out[i] is input[p[i]], each input
/// used once), newest first, with errors of the same time in input order.
pub open spec fn newest_first_by(
    input: Seq<ErrorRowSpec>,
    out: Seq<ErrorRowSpec>,
    p: Seq<int>,
) -> bool {
    &&& p.len() == out.len() == input.len()
    &&& forall|i: int| 0 <= i < p.len() ==> 0 <= #[trigger] p[i] < input.len()
    &&& forall|i: int| 0 <= i < p.len() ==> #[trigger] out[i] == input[p[i]]
    &&& forall|i: int, j: int| 0 <= i < j < p.len() ==> #[trigger] p[i] != #[trigger] p[j]
    &&& forall|i: int, j: int|
        0 <= i < j < out.len() ==> #[trigger] out[i].timestamp >= #[trigger] out[j].timestamp
    &&& forall|i: int, j: int|
        0 <= i < j < out.len() && #[trigger] out[i].timestamp == #[trigger] out[j].timestamp
            ==> p[i] < p[j]
}

/// `out` is the stable newest-first order of `input`.
pub open spec fn is_newest_first(input: Seq<ErrorRowSpec>, out: Seq<ErrorRowSpec>) -> bool {
    exists|p: Seq<int>| newest_first_by(input, out, p)
}

proof fn lemma_insert_at<A>(s: Seq<A>, j: int, x: A)
    requires
        0 <= j <= s.len(),
    ensures
        s.insert(j, x).len() == s.len() + 1,
        forall|i: int|
            0 <= i <= s.len() ==> #[trigger] s.insert(j, x)[i] == (if i < j {
                s[i]
            } else if i == j {
                x
            } else {
                s[i - 1]
            }),
{
    s.insert_ensures(j, x);
    assert forall|i: int| 0 <= i <= s.len() implies #[trigger] s.insert(j, x)[i] == (if i < j {
        s[i]
    } else if i == j {
        x
    } else {
        s[i - 1]
    }) by {
        if i > j {
            assert(s.insert(j, x)[(i - 1) + 1] == s[i - 1]);
        }
    }
}

/// The errors of the rows, newest first; errors logged at the same time keep
/// the order in which the rows came.
pub fn errors_newest_first(rows: &Vec<Row>) -> (out: Vec<ErrorRow>)
    ensures
        is_newest_first(errors_of_rows(rows_view(rows@)), errors_view(out@)),
{
    let ghost input = errors_of_rows(rows_view(rows@));
    let ghost mut p: Seq<int> = Seq::empty();
    let mut out: Vec<ErrorRow> = Vec::new();
    let mut k: usize = 0;
    while k < rows.len()
        invariant
            k <= rows@.len(),
            input == errors_of_rows(rows_view(rows@)),
            newest_first_by(input.take(k as int), errors_view(out@), p),
        decreases rows@.len() - k,
    {
        let x = error_from_row(&rows[k]);
        assert(x@ == input[k as int]);
        let mut j: usize = 0;
        while j < out.len() && out[j].timestamp >= x.timestamp
            invariant
                j <= out@.len(),
                forall|i: int| 0 <= i < j ==> out@[i].timestamp >= x.timestamp,
            decreases out@.len() - j,
        {
            j += 1;
        }
        let ghost old_out = errors_view(out@);
        let ghost old_p = p;
        let ghost xv = x@;
        assert(forall|i: int| j <= i < old_out.len() ==> old_out[i].timestamp < xv.timestamp) by {
            assert forall|i: int| j <= i < old_out.len() implies old_out[i].timestamp
                < xv.timestamp by {
                if i > j {
                    assert(old_out[j as int].timestamp >= old_out[i].timestamp);
                }
            }
        }
        out.insert(j, x);
        proof {
            p = old_p.insert(j as int, k as int);
            lemma_insert_at(old_out, j as int, xv);
            lemma_insert_at(old_p, j as int, k as int);
            assert(errors_view(out@) =~= old_out.insert(j as int, xv));
            let prev = input.take(k as int);
            let next = input.take(k + 1);
            assert forall|i: int| 0 <= i < k implies #[trigger] next[i] == prev[i] by {}
            assert(next[k as int] == xv);
            let nout = errors_view(out@);
            assert forall|i: int| 0 <= i < p.len() implies 0 <= #[trigger] p[i] < next.len() by {}
            assert forall|i: int| 0 <= i < p.len() implies #[trigger] nout[i] == next[p[i]] by {
                if i < j {
                    assert(nout[i] == old_out[i]);
                    assert(old_out[i] == prev[old_p[i]]);
                } else if i > j {
                    assert(nout[i] == old_out[i - 1]);
                    assert(old_out[i - 1] == prev[old_p[i - 1]]);
                }
            }
            assert forall|a: int, b: int| 0 <= a < b < p.len() implies #[trigger] p[a] != #[trigger] p[b] by {
                if a != j && b != j {
                    let a0 = if a < j { a } else { a - 1 };
                    let b0 = if b < j { b } else { b - 1 };
                    assert(old_p[a0] != old_p[b0]);
                } else if a == j {
                    let b0 = b - 1;
                    assert(0 <= old_p[b0] < k);
                } else {
                    assert(0 <= old_p[a] < k);
                }
            }
            assert forall|a: int, b: int| 0 <= a < b < nout.len() implies #[trigger] nout[a].timestamp
                >= #[trigger] nout[b].timestamp by {
                if a != j && b != j {
                    let a0 = if a < j { a } else { a - 1 };
                    let b0 = if b < j { b } else { b - 1 };
                    assert(old_out[a0].timestamp >= old_out[b0].timestamp);
                } else if a == j {
                    assert(old_out[b - 1].timestamp < xv.timestamp);
                } else {
                    assert(old_out[a].timestamp >= xv.timestamp);
                }
            }
            assert forall|a: int, b: int|
                0 <= a < b < nout.len() && #[trigger] nout[a].timestamp == #[trigger] nout[b].timestamp
                    implies p[a] < p[b] by {
                if a != j && b != j {
                    let a0 = if a < j { a } else { a - 1 };
                    let b0 = if b < j { b } else { b - 1 };
                    assert(old_out[a0].timestamp == old_out[b0].timestamp);
                    assert(old_p[a0] < old_p[b0]);
                } else if a == j {
                    assert(old_out[b - 1].timestamp < xv.timestamp);
                } else {
                    assert(0 <= old_p[a] < k);
                }
            }
            assert(newest_first_by(next, nout, p));
        }
        k += 1;
    }
    proof {
        assert(input.take(rows@.len() as int) =~= input);
    }
    out
}

/// At most `limit` errors, the newest first.
pub open spec fn first_at_most<A>(s: Seq<A>, limit: int) -> Seq<A> {
    if limit < s.len() {
        s.take(limit)
    } else {
        s
    }
}

/// The `limit` most recent errors of the rows, newest first (ties in row order).
pub fn recent_errors(rows: &Vec<Row>, limit: usize) -> (out: Vec<ErrorRow>)
    ensures
        exists|full: Seq<ErrorRowSpec>|
            is_newest_first(errors_of_rows(rows_view(rows@)), full) && errors_view(out@)
                == first_at_most(full, limit as int),
{
    let mut all = errors_newest_first(rows);
    let ghost full = errors_view(all@);
    all.truncate(limit);
    assert(errors_view(all@) =~= first_at_most(full, limit as int));
    all
}

/// An arrangement uses every input once: each index of the input appears in it.
proof fn lemma_arrangement_covers(p: Seq<int>, n: int, m: int)
    requires
        p.len() == n,
        forall|i: int| 0 <= i < p.len() ==> 0 <= #[trigger] p[i] < n,
        forall|i: int, j: int| 0 <= i < j < p.len() ==> #[trigger] p[i] != #[trigger] p[j],
        0 <= m < n,
    ensures
        exists|i: int| 0 <= i < n && p[i] == m,
{
    assert(p.no_duplicates()) by {
        assert forall|i: int, j: int| 0 <= i < p.len() && 0 <= j < p.len() && i != j implies p[i]
            != p[j] by {
            if i < j {
                assert(p[i] != p[j]);
            } else {
                assert(p[j] != p[i]);
            }
        }
    }
    p.unique_seq_to_set();
    lemma_int_range(0, n);
    assert(p.to_set().subset_of(set_int_range(0, n))) by {
        assert forall|x: int| #[trigger] p.to_set().contains(x) implies set_int_range(0, n).contains(
            x,
        ) by {
            assert(p.contains(x));
        }
    }
    vstd::set_lib::lemma_len_subset(p.to_set(), set_int_range(0, n));
    lemma_subset_equality(p.to_set(), set_int_range(0, n));
    assert(set_int_range(0, n).contains(m));
    assert(p.to_set().contains(m));
    assert(p.contains(m));
}

proof fn lemma_same_prefix(
    input: Seq<ErrorRowSpec>,
    a: Seq<ErrorRowSpec>,
    b: Seq<ErrorRowSpec>,
    p: Seq<int>,
    q: Seq<int>,
    k: int,
)
    requires
        newest_first_by(input, a, p),
        newest_first_by(input, b, q),
        0 <= k <= input.len(),
    ensures
        forall|j: int| 0 <= j < k ==> p[j] == q[j],
    decreases k,
{
    if k > 0 {
        lemma_same_prefix(input, a, b, p, q, k - 1);
        let n = input.len() as int;
        let x = p[k - 1];
        let y = q[k - 1];
        if x != y {
            lemma_arrangement_covers(q, n, x);
            let j = choose|j: int| 0 <= j < n && q[j] == x;
            lemma_arrangement_covers(p, n, y);
            let l = choose|l: int| 0 <= l < n && p[l] == y;
            if j < k - 1 {
                assert(p[j] == q[j]);
                assert(p[j] != p[k - 1]);
            }
            if l < k - 1 {
                assert(p[l] == q[l]);
                assert(q[l] != q[k - 1]);
            }
            assert(j > k - 1 && l > k - 1);
            assert(b[k - 1] == input[y] && b[j] == input[x]);
            assert(a[k - 1] == input[x] && a[l] == input[y]);
            assert(b[k - 1].timestamp >= b[j].timestamp);
            assert(a[k - 1].timestamp >= a[l].timestamp);
            assert(q[k - 1] < q[j]);
            assert(p[k - 1] < p[l]);
        }
    }
}

/// The newest-first order of a list of errors is determined by the list:
/// two arrangements that are both newest first, with ties in input order,
/// are the same. So reading the log twice lists it the same way.
pub proof fn law_newest_first_is_unique(
    input: Seq<ErrorRowSpec>,
    a: Seq<ErrorRowSpec>,
    b: Seq<ErrorRowSpec>,
)
    requires
        is_newest_first(input, a),
        is_newest_first(input, b),
    ensures
        a == b,
{
    let p = choose|p: Seq<int>| newest_first_by(input, a, p);
    let q = choose|q: Seq<int>| newest_first_by(input, b, q);
    lemma_same_prefix(input, a, b, p, q, input.len() as int);
    assert forall|i: int| 0 <= i < a.len() implies a[i] == b[i] by {
        assert(p[i] == q[i]);
    }
    assert(a =~= b);
}

} // verus!
