use vstd::prelude::*;
use crate::migration::helpers::{
    ADbTable, MigrationOp, SchemaChange, TableSpec, ops_view, push_column_where, tables_view,
    with_columns_added,
};
use crate::migration::schemas::version0;
use crate::new_table::{ColumnDef, ColumnSpec, column_spec};
use crate::payload::AddColumnIn;

verus! {

/// `type_of_category TEXT NOT NULL DEFAULT 'normal'`.
pub open spec fn type_of_category_column_spec() -> ColumnSpec {
    column_spec("type_of_category"@, "TEXT"@, false, true, false, "normal"@, false)
}

/// Version 1 gives every category a type.
pub open spec fn tables_spec() -> Seq<TableSpec> {
    with_columns_added(version0::tables_spec(), "categories"@, seq![type_of_category_column_spec()])
}

/// What the database is asked to do to go from version 0 to version 1.
pub open spec fn changes_spec() -> Seq<SchemaChange> {
    seq![SchemaChange::AddColumn { table: "categories"@, column: type_of_category_column_spec() }]
}

pub fn entire_table() -> (tables: Vec<ADbTable>)
    ensures
        tables_view(tables@) == tables_spec(),
{
    let mut tables = version0::entire_table();
    push_column_where(&mut tables, "categories", &type_of_category_column());
    tables
}

pub fn type_of_category_column() -> (c: ColumnDef)
    ensures
        c@ == type_of_category_column_spec(),
{
    ColumnDef {
        name: "type_of_category".to_string(),
        column_type: "TEXT".to_string(),
        primary_key: false,
        not_null: true,
        unique: false,
        default_value: "normal".to_string(),
        autoincrement: false,
    }
}

pub fn update_from_old_version() -> (ops: Vec<MigrationOp>)
    ensures
        ops_view(ops@) == changes_spec(),
{
    let ops = vec![
        MigrationOp::AddColumn(
            AddColumnIn { table_name: "categories".to_string(), column: type_of_category_column() },
        ),
    ];
    assert(ops_view(ops@) =~= changes_spec());
    ops
}

} // verus!
