use vstd::prelude::*;
use crate::migration::helpers::{
    ADbTable, MigrationOp, SchemaChange, TableSpec, ops_view, push_column_where, tables_view,
    with_columns_added,
};
use crate::migration::schemas::version6;
use crate::new_table::{ColumnDef, ColumnSpec, column_spec};
use crate::payload::AddColumnIn;

verus! {

/// `copy_instead_of_view INTEGER NOT NULL DEFAULT 0`.
pub open spec fn copy_instead_of_view_column_spec() -> ColumnSpec {
    column_spec("copy_instead_of_view"@, "INTEGER"@, false, true, false, "0"@, false)
}

/// Version 7 lets a text be copied on click instead of opened.
pub open spec fn tables_spec() -> Seq<TableSpec> {
    with_columns_added(version6::tables_spec(), "texts"@, seq![copy_instead_of_view_column_spec()])
}

pub open spec fn changes_spec() -> Seq<SchemaChange> {
    seq![SchemaChange::AddColumn { table: "texts"@, column: copy_instead_of_view_column_spec() }]
}

pub fn entire_table() -> (tables: Vec<ADbTable>)
    ensures
        tables_view(tables@) == tables_spec(),
{
    let mut tables = version6::entire_table();
    push_column_where(&mut tables, "texts", &copy_instead_of_view_column());
    tables
}

pub fn copy_instead_of_view_column() -> (c: ColumnDef)
    ensures
        c@ == copy_instead_of_view_column_spec(),
{
    ColumnDef {
        name: "copy_instead_of_view".to_string(),
        column_type: "INTEGER".to_string(),
        primary_key: false,
        not_null: true,
        unique: false,
        default_value: "0".to_string(),
        autoincrement: false,
    }
}

pub fn update_from_old_version() -> (ops: Vec<MigrationOp>)
    ensures
        ops_view(ops@) == changes_spec(),
{
    let ops = vec![
        MigrationOp::AddColumn(
            AddColumnIn {
                table_name: "texts".to_string(),
                column: copy_instead_of_view_column(),
            },
        ),
    ];
    assert(ops_view(ops@) =~= changes_spec());
    ops
}

} // verus!
