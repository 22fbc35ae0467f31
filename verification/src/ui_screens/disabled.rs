use vstd::prelude::*;
use crate::error_stuff::{AppError, DbError, ErrorDetail};
use crate::row_col::{ColSpec, Row, text_at};
use crate::text::concat3;

verus! {

/// The text of a database error.
pub open spec fn db_error_text(e: DbError) -> Seq<char> {
    match e {
        DbError::BadCode(m) => m@,
        DbError::Database(m) => m@,
    }
}

/// The line that says what went wrong.
pub open spec fn detail_line_spec(d: ErrorDetail) -> Seq<char> {
    match d {
        ErrorDetail::Db(e) => "db error: "@ + db_error_text(e),
        ErrorDetail::Col(m) => "col error: "@ + m@,
    }
}

pub fn detail_line(d: &ErrorDetail) -> (s: String)
    ensures
        s@ == detail_line_spec(*d),
{
    proof {
        reveal_strlit("");
    }
    let r = match d {
        ErrorDetail::Db(DbError::BadCode(m)) => concat3("db error: ", m.as_str(), ""),
        ErrorDetail::Db(DbError::Database(m)) => concat3("db error: ", m.as_str(), ""),
        ErrorDetail::Col(m) => concat3("col error: ", m.as_str(), ""),
    };
    assert(r@ =~= detail_line_spec(*d));
    r
}

/// What "Copy error" copies about the error: its screen, its location and
/// what went wrong, one per line.
pub open spec fn error_text_spec(e: AppError) -> Seq<char> {
    "screen: "@ + e.screen@ + "\n"@ + "location: "@ + e.location@ + "\n"@ + detail_line_spec(
        e.detail,
    ) + "\n"@
}

pub fn error_text(e: &AppError) -> (s: String)
    ensures
        s@ == error_text_spec(*e),
{
    let mut s = concat3("screen: ", e.screen.as_str(), "\n");
    let l = concat3("location: ", e.location.as_str(), "\n");
    s.append(l.as_str());
    let d = detail_line(&e.detail);
    s.append(d.as_str());
    s.append("\n");
    assert(s@ =~= error_text_spec(*e));
    s
}

/// A text column, or `?` when the column holds none.
pub open spec fn text_or_question(row: Seq<ColSpec>, i: int) -> Seq<char> {
    match text_at(row, i) {
        Some(t) => t,
        None => "?"@,
    }
}

/// A log row as the disabled screen lists it: `[level] category: message`.
pub open spec fn log_line_spec(row: Seq<ColSpec>) -> Seq<char> {
    "["@ + text_or_question(row, 2) + "] "@ + text_or_question(row, 3) + ": "@ + text_or_question(
        row,
        6,
    )
}

fn text_or_question_of(row: &Row, i: usize) -> (s: String)
    ensures
        s@ == text_or_question(row@, i as int),
{
    match row.text_at(i) {
        Some(t) => t,
        None => "?".to_string(),
    }
}

pub fn format_log_row(row: &Row) -> (s: String)
    ensures
        s@ == log_line_spec(row@),
{
    let level = text_or_question_of(row, 2);
    let category = text_or_question_of(row, 3);
    let message = text_or_question_of(row, 6);
    let mut s = concat3("[", level.as_str(), "] ");
    s.append(category.as_str());
    s.append(": ");
    s.append(message.as_str());
    assert(s@ =~= log_line_spec(row@));
    s
}

/// The recent logs as "Copy error" appends them: a heading, then one line
/// per log; nothing when there are no logs.
pub open spec fn logs_text_spec(lines: Seq<Seq<char>>) -> Seq<char>
    decreases lines.len(),
{
    if lines.len() == 0 {
        Seq::empty()
    } else if lines.len() == 1 {
        "\nRecent logs:\n"@ + lines[0] + "\n"@
    } else {
        logs_text_spec(lines.drop_last()) + lines.last() + "\n"@
    }
}

pub fn logs_text(lines: &Vec<String>) -> (s: String)
    ensures
        s@ == logs_text_spec(lines@.map_values(|l: String| l@)),
{
    let ghost lv = lines@.map_values(|l: String| l@);
    let mut s = String::new();
    if lines.len() == 0 {
        assert(s@ =~= logs_text_spec(lv));
        return s;
    }
    s.append("\nRecent logs:\n");
    let mut k: usize = 0;
    while k < lines.len()
        invariant
            k <= lines@.len(),
            lines@.len() > 0,
            lv == lines@.map_values(|l: String| l@),
            k == 0 ==> s@ == "\nRecent logs:\n"@,
            k > 0 ==> s@ == logs_text_spec(lv.take(k as int)),
        decreases lines@.len() - k,
    {
        s.append(lines[k].as_str());
        s.append("\n");
        proof {
            assert(lv.take(k + 1).drop_last() =~= lv.take(k as int));
            assert(lv.take(k + 1).last() == lines@[k as int]@);
            if k == 0 {
                assert(lv.take(1)[0] == lines@[0]@);
            }
        }
        k += 1;
    }
    assert(lv.take(lines@.len() as int) =~= lv);
    s
}

/// How an error is recorded in the error log: the database error as
/// `db: ...`, any other as its text.
pub open spec fn logged_detail_spec(d: ErrorDetail) -> Seq<char> {
    match d {
        ErrorDetail::Db(e) => "db: "@ + db_error_text(e),
        ErrorDetail::Col(m) => m@,
    }
}

pub fn logged_detail(d: &ErrorDetail) -> (s: String)
    ensures
        s@ == logged_detail_spec(*d),
{
    proof {
        reveal_strlit("");
    }
    let r = match d {
        ErrorDetail::Db(DbError::BadCode(m)) => concat3("db: ", m.as_str(), ""),
        ErrorDetail::Db(DbError::Database(m)) => concat3("db: ", m.as_str(), ""),
        ErrorDetail::Col(m) => m.clone(),
    };
    assert(r@ =~= logged_detail_spec(*d));
    r
}

/// What tells one logged error from another: screen, location and detail,
/// joined by `::`.
pub open spec fn log_key_spec(e: AppError) -> Seq<char> {
    e.screen@ + "::"@ + e.location@ + "::"@ + logged_detail_spec(e.detail)
}

pub fn log_key(e: &AppError) -> (s: String)
    ensures
        s@ == log_key_spec(*e),
{
    let mut s = concat3(e.screen.as_str(), "::", e.location.as_str());
    s.append("::");
    let d = logged_detail(&e.detail);
    s.append(d.as_str());
    assert(s@ =~= log_key_spec(*e));
    s
}

/// An error is written to the log once: not again while it is the last one written.
pub fn should_log(last_logged: &Option<String>, key: &str) -> (b: bool)
    ensures
        b == !(last_logged matches Some(l) && l@ == key@),
{
    match last_logged {
        Some(l) => !crate::text::str_eq(l.as_str(), key),
        None => true,
    }
}

} // verus!
