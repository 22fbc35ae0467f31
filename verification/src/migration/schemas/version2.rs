use vstd::prelude::*;
use crate::migration::helpers::{
    ADbTable, MigrationOp, SchemaChange, TableSpec, ops_view, table_spec, tables_view,
};
use crate::migration::schemas::version1;
use crate::new_table::{
    ColumnDef, ColumnSpec, ColumnType, columns_view, id_column, id_column_spec, not_null_col,
    not_null_col_spec,
};
use crate::payload::CreateTableIn;

verus! {

pub open spec fn projects_columns_spec() -> Seq<ColumnSpec> {
    seq![
        id_column_spec(),
        not_null_col_spec(ColumnType::Text, "title"@),
        not_null_col_spec(ColumnType::Text, "path"@),
    ]
}

/// Version 2 adds the `projects` table.
pub open spec fn tables_spec() -> Seq<TableSpec> {
    version1::tables_spec().push(table_spec("projects"@, projects_columns_spec(), Seq::empty()))
}

pub open spec fn changes_spec() -> Seq<SchemaChange> {
    seq![SchemaChange::CreateTable { table: "projects"@, columns: projects_columns_spec() }]
}

pub fn entire_table() -> (tables: Vec<ADbTable>)
    ensures
        tables_view(tables@) == tables_spec(),
{
    let mut tables = version1::entire_table();
    let ghost before = tables@;
    let projects = ADbTable {
        table_name: "projects".to_string(),
        columns: projects_columns(),
        foreign_keys: Vec::new(),
    };
    assert(projects@.foreign_keys =~= Seq::empty());
    assert(projects@ == table_spec("projects"@, projects_columns_spec(), Seq::empty()));
    tables.push(projects);
    assert(tables_view(tables@) =~= tables_view(before).push(projects@));
    tables
}

pub fn projects_columns() -> (cols: Vec<ColumnDef>)
    ensures
        columns_view(cols@) == projects_columns_spec(),
{
    let cols = vec![
        id_column(),
        not_null_col(ColumnType::Text, "title"),
        not_null_col(ColumnType::Text, "path"),
    ];
    assert(columns_view(cols@) =~= projects_columns_spec());
    cols
}

pub fn update_from_old_version() -> (ops: Vec<MigrationOp>)
    ensures
        ops_view(ops@) == changes_spec(),
{
    let ops = vec![
        MigrationOp::CreateTable(
            CreateTableIn { table_name: "projects".to_string(), columns: projects_columns() },
        ),
    ];
    assert(ops_view(ops@) =~= changes_spec());
    ops
}

} // verus!
