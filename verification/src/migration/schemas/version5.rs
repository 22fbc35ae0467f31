use vstd::prelude::*;
use crate::migration::helpers::{
    ADbTable, MigrationOp, SchemaChange, TableSpec, ops_view, table_spec, tables_view,
};
use crate::migration::schemas::version4;
use crate::new_table::{
    ColumnDef, ColumnSpec, ColumnType, columns_view, id_column, id_column_spec, not_null_col,
    not_null_col_spec,
};
use crate::payload::CreateTableIn;

verus! {

pub open spec fn shortcuts_columns_spec() -> Seq<ColumnSpec> {
    seq![
        id_column_spec(),
        not_null_col_spec(ColumnType::Text, "owner_kind"@),
        not_null_col_spec(ColumnType::Text, "owner_id"@),
        not_null_col_spec(ColumnType::Text, "combo"@),
    ]
}

/// Version 5 stores keyboard shortcuts.
pub open spec fn tables_spec() -> Seq<TableSpec> {
    version4::tables_spec().push(table_spec("shortcuts"@, shortcuts_columns_spec(), Seq::empty()))
}

pub open spec fn changes_spec() -> Seq<SchemaChange> {
    seq![SchemaChange::CreateTable { table: "shortcuts"@, columns: shortcuts_columns_spec() }]
}

pub fn entire_table() -> (tables: Vec<ADbTable>)
    ensures
        tables_view(tables@) == tables_spec(),
{
    let mut tables = version4::entire_table();
    let ghost before = tables@;
    let shortcuts = ADbTable {
        table_name: "shortcuts".to_string(),
        columns: shortcuts_columns(),
        foreign_keys: Vec::new(),
    };
    assert(shortcuts@.foreign_keys =~= Seq::empty());
    tables.push(shortcuts);
    assert(tables_view(tables@) =~= tables_view(before).push(shortcuts@));
    tables
}

pub fn shortcuts_columns() -> (cols: Vec<ColumnDef>)
    ensures
        columns_view(cols@) == shortcuts_columns_spec(),
{
    let cols = vec![
        id_column(),
        not_null_col(ColumnType::Text, "owner_kind"),
        not_null_col(ColumnType::Text, "owner_id"),
        not_null_col(ColumnType::Text, "combo"),
    ];
    assert(columns_view(cols@) =~= shortcuts_columns_spec());
    cols
}

pub fn update_from_old_version() -> (ops: Vec<MigrationOp>)
    ensures
        ops_view(ops@) == changes_spec(),
{
    let ops = vec![
        MigrationOp::CreateTable(
            CreateTableIn { table_name: "shortcuts".to_string(), columns: shortcuts_columns() },
        ),
    ];
    assert(ops_view(ops@) =~= changes_spec());
    ops
}

} // verus!
