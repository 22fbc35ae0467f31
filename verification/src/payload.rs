use vstd::prelude::*;
use crate::new_table::ColumnDef;
use crate::row_col::{Col, ColSpec};

verus! {

/// Adds one column to an existing table.
#[derive(Debug)]
pub struct AddColumnIn {
    pub table_name: String,
    pub column: ColumnDef,
}

/// Creates a table with the given columns and no foreign keys.
#[derive(Debug)]
pub struct CreateTableIn {
    pub table_name: String,
    pub columns: Vec<ColumnDef>,
}

/// Drops a table, whatever it holds.
#[derive(Debug)]
pub struct DropTableIn {
    pub table_name: String,
}

/// Creates the full-text index over the given columns of a table.
#[derive(Debug)]
pub struct CreateFts5TableIn {
    pub source_table_name: String,
    pub columns: Vec<String>,
}

/// The value to put into one column of a new row.
#[derive(Debug)]
pub struct ColumnValue {
    pub column_name: String,
    pub value: Col,
}

/// Inserts one row; columns that are not named get their default.
#[derive(Debug)]
pub struct InsertDataIn {
    pub table_name: String,
    pub values: Vec<ColumnValue>,
}

pub struct InsertSpec {
    pub table: Seq<char>,
    pub values: Seq<(Seq<char>, ColSpec)>,
}

impl View for InsertDataIn {
    type V = InsertSpec;

    open spec fn view(&self) -> InsertSpec {
        InsertSpec {
            table: self.table_name@,
            values: self.values@.map_values(|v: ColumnValue| (v.column_name@, v.value@)),
        }
    }
}

pub open spec fn insert_spec(table: Seq<char>, values: Seq<(Seq<char>, ColSpec)>) -> InsertSpec {
    InsertSpec { table, values }
}

/// Sets one column of the row whose id is `row_id`.
#[derive(Debug)]
pub struct EditColInRowIn {
    pub table_name: String,
    pub row_id: String,
    pub column: String,
    pub new_value: Col,
}

pub struct EditSpec {
    pub table: Seq<char>,
    pub row_id: Seq<char>,
    pub column: Seq<char>,
    pub value: ColSpec,
}

impl View for EditColInRowIn {
    type V = EditSpec;

    open spec fn view(&self) -> EditSpec {
        EditSpec {
            table: self.table_name@,
            row_id: self.row_id@,
            column: self.column@,
            value: self.new_value@,
        }
    }
}

pub open spec fn edit_spec(table: Seq<char>, row_id: Seq<char>, column: Seq<char>, value: ColSpec) -> EditSpec {
    EditSpec { table, row_id, column, value }
}

/// Deletes the row whose id is `row_id`.
#[derive(Debug)]
pub struct DeleteRowIn {
    pub table_name: String,
    pub row_id: String,
}

impl View for DeleteRowIn {
    type V = (Seq<char>, Seq<char>);

    open spec fn view(&self) -> (Seq<char>, Seq<char>) {
        (self.table_name@, self.row_id@)
    }
}

pub open spec fn deletes_view(d: Seq<DeleteRowIn>) -> Seq<(Seq<char>, Seq<char>)> {
    d.map_values(|x: DeleteRowIn| x@)
}

/// How rows are chosen.
#[derive(Debug)]
#[allow(inconsistent_fields)]
pub enum SelectArgument {
    All,
    XEqualY { x: String, y: String },
    XInY { x: String, y: Vec<String> },
    XLikeY { x: String, y: String },
}

#[allow(inconsistent_fields)]
pub enum ArgSpec {
    All,
    XEqualY { x: Seq<char>, y: Seq<char> },
    XInY { x: Seq<char>, y: Seq<Seq<char>> },
    XLikeY { x: Seq<char>, y: Seq<char> },
}

pub open spec fn strings_view(v: Seq<String>) -> Seq<Seq<char>> {
    v.map_values(|s: String| s@)
}

impl View for SelectArgument {
    type V = ArgSpec;

    open spec fn view(&self) -> ArgSpec {
        match self {
            SelectArgument::All => ArgSpec::All,
            SelectArgument::XEqualY { x, y } => ArgSpec::XEqualY { x: x@, y: y@ },
            SelectArgument::XInY { x, y } => ArgSpec::XInY { x: x@, y: strings_view(y@) },
            SelectArgument::XLikeY { x, y } => ArgSpec::XLikeY { x: x@, y: y@ },
        }
    }
}

#[derive(Debug)]
pub enum JoinType {
    And,
}

/// One condition, or two joined.
#[derive(Debug)]
pub enum SelectArguments {
    Single(SelectArgument),
    Two { first: SelectArgument, join: JoinType, second: SelectArgument },
}

pub enum ArgsSpec {
    Single(ArgSpec),
    Both(ArgSpec, ArgSpec),
}

impl View for SelectArguments {
    type V = ArgsSpec;

    open spec fn view(&self) -> ArgsSpec {
        match self {
            SelectArguments::Single(a) => ArgsSpec::Single(a@),
            SelectArguments::Two { first, second, .. } => ArgsSpec::Both(first@, second@),
        }
    }
}

/// Reads the named columns (all of them when none are named) of the chosen rows.
#[derive(Debug)]
pub struct GetDataIn {
    pub table_name: String,
    pub arguments: SelectArguments,
    pub columns_to_read: Vec<String>,
}

pub struct QuerySpec {
    pub table: Seq<char>,
    pub arguments: ArgsSpec,
    pub columns: Seq<Seq<char>>,
}

impl View for GetDataIn {
    type V = QuerySpec;

    open spec fn view(&self) -> QuerySpec {
        QuerySpec {
            table: self.table_name@,
            arguments: self.arguments@,
            columns: strings_view(self.columns_to_read@),
        }
    }
}

pub open spec fn query_spec(table: Seq<char>, arguments: ArgsSpec, columns: Seq<Seq<char>>) -> QuerySpec {
    QuerySpec { table, arguments, columns }
}

/// A query for every column of every row of a table.
pub fn select_all(table_name: &str) -> (q: GetDataIn)
    ensures
        q@ == query_spec(table_name@, ArgsSpec::Single(ArgSpec::All), Seq::empty()),
{
    let q = GetDataIn {
        table_name: table_name.to_string(),
        arguments: SelectArguments::Single(SelectArgument::All),
        columns_to_read: Vec::new(),
    };
    assert(q@.columns =~= Seq::empty());
    q
}

/// A query for the named columns of the rows where column `x` holds `y`.
pub fn select_where_equal(table_name: &str, x: &str, y: &str, columns: Vec<String>) -> (q: GetDataIn)
    ensures
        q@ == query_spec(
            table_name@,
            ArgsSpec::Single(ArgSpec::XEqualY { x: x@, y: y@ }),
            strings_view(columns@),
        ),
{
    GetDataIn {
        table_name: table_name.to_string(),
        arguments: SelectArguments::Single(
            SelectArgument::XEqualY { x: x.to_string(), y: y.to_string() },
        ),
        columns_to_read: columns,
    }
}

} // verus!
