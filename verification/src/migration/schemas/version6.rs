use vstd::prelude::*;
use crate::migration::helpers::{
    ADbTable, MigrationOp, SchemaChange, TableSpec, ops_view, table_spec, tables_view,
};
use crate::migration::schemas::version5;
use crate::new_table::{
    ColumnDef, ColumnSpec, ColumnType, columns_view, id_column, id_column_spec, not_null_col,
    not_null_col_spec,
};
use crate::payload::{CreateTableIn, DropTableIn};

verus! {

pub open spec fn error_log_columns_spec() -> Seq<ColumnSpec> {
    seq![
        id_column_spec(),
        not_null_col_spec(ColumnType::Integer, "timestamp"@),
        not_null_col_spec(ColumnType::Text, "screen"@),
        not_null_col_spec(ColumnType::Text, "location"@),
        not_null_col_spec(ColumnType::Text, "detail"@),
    ]
}

/// Version 6 keeps a log of the errors that disabled the app.
pub open spec fn tables_spec() -> Seq<TableSpec> {
    version5::tables_spec().push(table_spec("error_log"@, error_log_columns_spec(), Seq::empty()))
}

/// The shortcuts table is rebuilt (the first one held a UNIQUE on `combo`,
/// so that two menus could not reuse a key), then the error log is created.
pub open spec fn changes_spec() -> Seq<SchemaChange> {
    seq![
        SchemaChange::DropTable { table: "shortcuts"@ },
        SchemaChange::CreateTable {
            table: "shortcuts"@,
            columns: version5::shortcuts_columns_spec(),
        },
        SchemaChange::CreateTable { table: "error_log"@, columns: error_log_columns_spec() },
    ]
}

pub fn entire_table() -> (tables: Vec<ADbTable>)
    ensures
        tables_view(tables@) == tables_spec(),
{
    let mut tables = version5::entire_table();
    let ghost before = tables@;
    let error_log = ADbTable {
        table_name: "error_log".to_string(),
        columns: error_log_columns(),
        foreign_keys: Vec::new(),
    };
    assert(error_log@.foreign_keys =~= Seq::empty());
    tables.push(error_log);
    assert(tables_view(tables@) =~= tables_view(before).push(error_log@));
    tables
}

pub fn error_log_columns() -> (cols: Vec<ColumnDef>)
    ensures
        columns_view(cols@) == error_log_columns_spec(),
{
    let cols = vec![
        id_column(),
        not_null_col(ColumnType::Integer, "timestamp"),
        not_null_col(ColumnType::Text, "screen"),
        not_null_col(ColumnType::Text, "location"),
        not_null_col(ColumnType::Text, "detail"),
    ];
    assert(columns_view(cols@) =~= error_log_columns_spec());
    cols
}

pub fn update_from_old_version() -> (ops: Vec<MigrationOp>)
    ensures
        ops_view(ops@) == changes_spec(),
{
    let ops = vec![
        MigrationOp::DropTable(DropTableIn { table_name: "shortcuts".to_string() }),
        MigrationOp::CreateTable(
            CreateTableIn {
                table_name: "shortcuts".to_string(),
                columns: version5::shortcuts_columns(),
            },
        ),
        MigrationOp::CreateTable(
            CreateTableIn { table_name: "error_log".to_string(), columns: error_log_columns() },
        ),
    ];
    assert(ops_view(ops@) =~= changes_spec());
    ops
}

} // verus!
