use vstd::prelude::*;

verus! {

/// One value read from or written to a column.
#[derive(Debug, PartialEq, Eq)]
pub enum Col {
    Null,
    Integer(i64),
    Text(String),
    Blob(Vec<u8>),
}

/// The mathematical value of a column value.
pub enum ColSpec {
    Null,
    Integer(int),
    Text(Seq<char>),
    Blob(Seq<u8>),
}

impl View for Col {
    type V = ColSpec;

    open spec fn view(&self) -> ColSpec {
        match self {
            Col::Null => ColSpec::Null,
            Col::Integer(i) => ColSpec::Integer(*i as int),
            Col::Text(s) => ColSpec::Text(s@),
            Col::Blob(b) => ColSpec::Blob(b@),
        }
    }
}

/// One row as the database hands it out: its columns in the order asked for
/// (all the table's columns, in schema order, when none were named).
#[derive(Debug, PartialEq, Eq)]
pub struct Row {
    pub cols: Vec<Col>,
}

pub open spec fn cols_view(cols: Seq<Col>) -> Seq<ColSpec> {
    cols.map_values(|c: Col| c@)
}

impl View for Row {
    type V = Seq<ColSpec>;

    open spec fn view(&self) -> Seq<ColSpec> {
        cols_view(self.cols@)
    }
}

/// The integer in column `i`, if there is one and it holds an integer.
pub open spec fn int_at(row: Seq<ColSpec>, i: int) -> Option<int> {
    if 0 <= i < row.len() {
        match row[i] {
            ColSpec::Integer(v) => Some(v),
            _ => None,
        }
    } else {
        None
    }
}

/// The text in column `i`, if there is one and it holds text.
pub open spec fn text_at(row: Seq<ColSpec>, i: int) -> Option<Seq<char>> {
    if 0 <= i < row.len() {
        match row[i] {
            ColSpec::Text(s) => Some(s),
            _ => None,
        }
    } else {
        None
    }
}

/// The text in column `i`, or the empty text when there is none.
pub open spec fn text_or_empty(row: Seq<ColSpec>, i: int) -> Seq<char> {
    match text_at(row, i) {
        Some(s) => s,
        None => Seq::empty(),
    }
}

/// Whether column `i` holds a non-zero integer; false when it holds none.
pub open spec fn flag_at(row: Seq<ColSpec>, i: int) -> bool {
    match int_at(row, i) {
        Some(v) => v != 0,
        None => false,
    }
}

impl Col {
    pub fn as_int(&self) -> (r: Option<i64>)
        ensures
            r matches Some(v) ==> self@ == ColSpec::Integer(v as int),
            r is None ==> !(self@ is Integer),
    {
        match self {
            Col::Integer(v) => Some(*v),
            _ => None,
        }
    }

    pub fn as_str(&self) -> (r: Option<&str>)
        ensures
            r matches Some(s) ==> self@ == ColSpec::Text(s@),
            r is None ==> !(self@ is Text),
    {
        match self {
            Col::Text(s) => Some(s.as_str()),
            _ => None,
        }
    }
}

impl Row {
    pub fn int_at(&self, i: usize) -> (r: Option<i64>)
        ensures
            r matches Some(v) ==> int_at(self@, i as int) == Some(v as int),
            r is None ==> int_at(self@, i as int) is None,
    {
        if i < self.cols.len() {
            self.cols[i].as_int()
        } else {
            None
        }
    }

    pub fn text_at(&self, i: usize) -> (r: Option<String>)
        ensures
            r matches Some(s) ==> text_at(self@, i as int) == Some(s@),
            r is None ==> text_at(self@, i as int) is None,
    {
        if i < self.cols.len() {
            match self.cols[i].as_str() {
                Some(s) => Some(s.to_string()),
                None => None,
            }
        } else {
            None
        }
    }

    pub fn text_or_empty(&self, i: usize) -> (s: String)
        ensures
            s@ == text_or_empty(self@, i as int),
    {
        match self.text_at(i) {
            Some(s) => s,
            None => String::new(),
        }
    }

    pub fn flag_at(&self, i: usize) -> (b: bool)
        ensures
            b == flag_at(self@, i as int),
    {
        match self.int_at(i) {
            Some(v) => v != 0,
            None => false,
        }
    }
}

/// The rows of a query result, as values.
pub open spec fn rows_view(rows: Seq<Row>) -> Seq<Seq<ColSpec>> {
    rows.map_values(|r: Row| r@)
}

/// The integer in the first column of the first row.
pub open spec fn first_int(rows: Seq<Seq<ColSpec>>) -> Option<int> {
    if rows.len() > 0 {
        int_at(rows[0], 0)
    } else {
        None
    }
}

/// The text in the first column of the first row.
pub open spec fn first_text(rows: Seq<Seq<ColSpec>>) -> Option<Seq<char>> {
    if rows.len() > 0 {
        text_at(rows[0], 0)
    } else {
        None
    }
}

pub fn first_int_of(rows: &Vec<Row>) -> (r: Option<i64>)
    ensures
        r matches Some(v) ==> first_int(rows_view(rows@)) == Some(v as int),
        r is None ==> first_int(rows_view(rows@)) is None,
{
    if rows.len() > 0 {
        rows[0].int_at(0)
    } else {
        None
    }
}

pub fn first_text_of(rows: &Vec<Row>) -> (r: Option<String>)
    ensures
        r matches Some(s) ==> first_text(rows_view(rows@)) == Some(s@),
        r is None ==> first_text(rows_view(rows@)) is None,
{
    if rows.len() > 0 {
        rows[0].text_at(0)
    } else {
        None
    }
}

} // verus!
