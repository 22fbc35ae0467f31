use vstd::prelude::*;
use vstd::string::StrSliceExecFns;
use crate::payload::{
    ArgSpec, ArgsSpec, ColumnValue, GetDataIn, InsertDataIn, InsertSpec, QuerySpec, insert_spec,
    query_spec, select_all,
};
use crate::row_col::{Col, ColSpec};
use crate::text::{concat3, trim, trimmed};

verus! {

/// Drops one pair of matching surrounding quotes, double or single.
pub open spec fn strip_quotes_spec(s: Seq<char>) -> Seq<char> {
    if s.len() >= 2 && ((s[0] == '"' && s.last() == '"') || (s[0] == '\'' && s.last() == '\'')) {
        s.subrange(1, s.len() - 1)
    } else {
        s
    }
}

/// `~` becomes the home directory and `~/rest` becomes `home/rest`; with no
/// home directory known, `~` stays and `~/rest` becomes `/rest`.
pub open spec fn expand_tilde_spec(s: Seq<char>, home: Option<Seq<char>>) -> Seq<char> {
    if s == seq!['~'] {
        match home {
            Some(h) => h,
            None => s,
        }
    } else if s.len() >= 2 && s[0] == '~' && s[1] == '/' {
        let h = match home {
            Some(h) => h,
            None => Seq::empty(),
        };
        h + seq!['/'] + s.subrange(2, s.len() as int)
    } else {
        s
    }
}

/// A path as the user typed or pasted it, made usable: trimmed, unquoted,
/// trimmed again, and with a leading `~` expanded.
pub open spec fn normalize_path_spec(raw: Seq<char>, home: Option<Seq<char>>) -> Seq<char> {
    expand_tilde_spec(trimmed(strip_quotes_spec(trimmed(raw))), home)
}

/// `home` is the value of `HOME`, or `None` when it is not set.
pub fn normalize_path(raw: &str, home: Option<&str>) -> (p: String)
    ensures
        p@ == normalize_path_spec(raw@, match home {
            Some(h) => Some(h@),
            None => None,
        }),
{
    let trimmed_raw = trim(raw);
    let unquoted = strip_matching_quotes(trimmed_raw);
    expand_tilde(trim(unquoted), home)
}

fn strip_matching_quotes(s: &str) -> (r: &str)
    ensures
        r@ == strip_quotes_spec(s@),
{
    let n = s.unicode_len();
    if n >= 2 {
        let first = s.get_char(0);
        let last = s.get_char(n - 1);
        if (first == '"' && last == '"') || (first == '\'' && last == '\'') {
            return s.substring_char(1, n - 1);
        }
    }
    s
}

fn expand_tilde(s: &str, home: Option<&str>) -> (r: String)
    ensures
        r@ == expand_tilde_spec(s@, match home {
            Some(h) => Some(h@),
            None => None,
        }),
{
    let n = s.unicode_len();
    if n == 1 && s.get_char(0) == '~' {
        assert(s@ =~= seq!['~']);
        return match home {
            Some(h) => h.to_string(),
            None => s.to_string(),
        };
    }
    if n >= 2 && s.get_char(0) == '~' && s.get_char(1) == '/' {
        assert(s@ != seq!['~']);
        let rest = s.substring_char(2, n);
        let h = match home {
            Some(h) => h,
            None => "",
        };
        proof {
            reveal_strlit("");
            reveal_strlit("/");
        }
        return concat3(h, "/", rest);
    }
    assert(s@ != seq!['~']);
    s.to_string()
}

pub open spec fn flag_value(b: bool) -> ColSpec {
    ColSpec::Integer(if b { 1 } else { 0 })
}

/// The row that a new project is stored as.
pub fn new_row_project(
    title: String,
    path: String,
    launch_zed: bool,
    launch_adstud: bool,
    home: Option<&str>,
) -> (row: InsertDataIn)
    ensures
        row@ == insert_spec(
            "projects"@,
            seq![
                ("title"@, ColSpec::Text(title@)),
                ("path"@, ColSpec::Text(normalize_path_spec(path@, match home {
                    Some(h) => Some(h@),
                    None => None,
                }))),
                ("launch_zed"@, flag_value(launch_zed)),
                ("launch_adstud"@, flag_value(launch_adstud)),
            ],
        ),
{
    let ghost title_view = title@;
    let clean_path = normalize_path(&path, home);
    let row = InsertDataIn {
        table_name: "projects".to_string(),
        values: vec![
            ColumnValue { column_name: "title".to_string(), value: Col::Text(title) },
            ColumnValue { column_name: "path".to_string(), value: Col::Text(clean_path) },
            ColumnValue {
                column_name: "launch_zed".to_string(),
                value: Col::Integer(if launch_zed { 1 } else { 0 }),
            },
            ColumnValue {
                column_name: "launch_adstud".to_string(),
                value: Col::Integer(if launch_adstud { 1 } else { 0 }),
            },
        ],
    };
    assert(row@.values =~= seq![
        ("title"@, ColSpec::Text(title_view)),
        ("path"@, ColSpec::Text(normalize_path_spec(path@, match home {
            Some(h) => Some(h@),
            None => None,
        }))),
        ("launch_zed"@, flag_value(launch_zed)),
        ("launch_adstud"@, flag_value(launch_adstud)),
    ]);
    row
}

/// The query that reads every project, all columns.
pub fn all_projects_query() -> (q: GetDataIn)
    ensures
        q@ == query_spec("projects"@, ArgsSpec::Single(ArgSpec::All), Seq::empty()),
{
    select_all("projects")
}

} // verus!
