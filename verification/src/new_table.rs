use vstd::prelude::*;

verus! {

/// The storage class of a column, as a table definition writes it.
pub enum ColumnType {
    Integer,
    Text,
}

/// The text that a column type stands for in a table definition.
pub open spec fn column_type_name(t: ColumnType) -> Seq<char> {
    match t {
        ColumnType::Integer => "INTEGER"@,
        ColumnType::Text => "TEXT"@,
    }
}

pub fn column_type_text(t: ColumnType) -> (s: String)
    ensures
        s@ == column_type_name(t),
{
    match t {
        ColumnType::Integer => "INTEGER".to_string(),
        ColumnType::Text => "TEXT".to_string(),
    }
}

/// One column of a table definition.
#[derive(Debug, PartialEq, Eq)]
pub struct ColumnDef {
    pub name: String,
    pub column_type: String,
    pub primary_key: bool,
    pub not_null: bool,
    pub unique: bool,
    pub default_value: String,
    pub autoincrement: bool,
}

impl Clone for ColumnDef {
    fn clone(&self) -> (c: Self)
        ensures
            c == *self,
    {
        ColumnDef {
            name: self.name.clone(),
            column_type: self.column_type.clone(),
            primary_key: self.primary_key,
            not_null: self.not_null,
            unique: self.unique,
            default_value: self.default_value.clone(),
            autoincrement: self.autoincrement,
        }
    }
}

/// The mathematical value of a column definition.
pub struct ColumnSpec {
    pub name: Seq<char>,
    pub column_type: Seq<char>,
    pub primary_key: bool,
    pub not_null: bool,
    pub unique: bool,
    pub default_value: Seq<char>,
    pub autoincrement: bool,
}

impl View for ColumnDef {
    type V = ColumnSpec;

    open spec fn view(&self) -> ColumnSpec {
        ColumnSpec {
            name: self.name@,
            column_type: self.column_type@,
            primary_key: self.primary_key,
            not_null: self.not_null,
            unique: self.unique,
            default_value: self.default_value@,
            autoincrement: self.autoincrement,
        }
    }
}

pub open spec fn column_spec(
    name: Seq<char>,
    column_type: Seq<char>,
    primary_key: bool,
    not_null: bool,
    unique: bool,
    default_value: Seq<char>,
    autoincrement: bool,
) -> ColumnSpec {
    ColumnSpec { name, column_type, primary_key, not_null, unique, default_value, autoincrement }
}

/// The views of a list of column definitions.
pub open spec fn columns_view(cols: Seq<ColumnDef>) -> Seq<ColumnSpec> {
    cols.map_values(|c: ColumnDef| c@)
}

/// `id INTEGER PRIMARY KEY AUTOINCREMENT NOT NULL`.
pub open spec fn id_column_spec() -> ColumnSpec {
    column_spec("id"@, "INTEGER"@, true, true, false, Seq::empty(), true)
}

/// A plain `NOT NULL` column without default.
pub open spec fn not_null_col_spec(t: ColumnType, name: Seq<char>) -> ColumnSpec {
    column_spec(name, column_type_name(t), false, true, false, Seq::empty(), false)
}

/// A `NOT NULL UNIQUE` column without default.
pub open spec fn not_null_unique_col_spec(t: ColumnType, name: Seq<char>) -> ColumnSpec {
    column_spec(name, column_type_name(t), false, true, true, Seq::empty(), false)
}

pub fn id_column() -> (c: ColumnDef)
    ensures
        c@ == id_column_spec(),
{
    ColumnDef {
        name: "id".to_string(),
        column_type: "INTEGER".to_string(),
        primary_key: true,
        not_null: true,
        unique: false,
        default_value: String::new(),
        autoincrement: true,
    }
}

pub fn not_null_col(t: ColumnType, name: &str) -> (c: ColumnDef)
    ensures
        c@ == not_null_col_spec(t, name@),
{
    ColumnDef {
        name: name.to_string(),
        column_type: column_type_text(t),
        primary_key: false,
        not_null: true,
        unique: false,
        default_value: String::new(),
        autoincrement: false,
    }
}

pub fn not_null_unique_col(t: ColumnType, name: &str) -> (c: ColumnDef)
    ensures
        c@ == not_null_unique_col_spec(t, name@),
{
    ColumnDef {
        name: name.to_string(),
        column_type: column_type_text(t),
        primary_key: false,
        not_null: true,
        unique: true,
        default_value: String::new(),
        autoincrement: false,
    }
}

/// A reference from a column to a column of another table.
#[derive(Debug, PartialEq, Eq)]
pub struct ForeignKeyDef {
    pub column: String,
    pub referenced_table: String,
    pub referenced_column: String,
}

pub struct ForeignKeySpec {
    pub column: Seq<char>,
    pub referenced_table: Seq<char>,
    pub referenced_column: Seq<char>,
}

impl View for ForeignKeyDef {
    type V = ForeignKeySpec;

    open spec fn view(&self) -> ForeignKeySpec {
        ForeignKeySpec {
            column: self.column@,
            referenced_table: self.referenced_table@,
            referenced_column: self.referenced_column@,
        }
    }
}

pub open spec fn foreign_keys_view(fks: Seq<ForeignKeyDef>) -> Seq<ForeignKeySpec> {
    fks.map_values(|f: ForeignKeyDef| f@)
}

pub open spec fn foreign_key_spec(
    column: Seq<char>,
    referenced_table: Seq<char>,
    referenced_column: Seq<char>,
) -> ForeignKeySpec {
    ForeignKeySpec { column, referenced_table, referenced_column }
}

} // verus!
