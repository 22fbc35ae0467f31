use vstd::prelude::*;
use crate::migration::helpers::{
    ADbTable, MigrationOp, SchemaChange, TableSpec, ops_view, push_column_where, table_spec,
    tables_view, with_columns_added,
};
use crate::migration::schemas::version3;
use crate::new_table::{
    ColumnDef, ColumnSpec, ColumnType, column_spec, columns_view, id_column, id_column_spec,
    not_null_unique_col, not_null_unique_col_spec,
};
use crate::payload::{AddColumnIn, CreateTableIn};

verus! {

/// `popularity_ctr INTEGER NOT NULL DEFAULT 0`.
pub open spec fn popularity_column_spec() -> ColumnSpec {
    column_spec("popularity_ctr"@, "INTEGER"@, false, true, false, "0"@, false)
}

pub open spec fn main_nav_clicks_columns_spec() -> Seq<ColumnSpec> {
    seq![
        id_column_spec(),
        not_null_unique_col_spec(ColumnType::Text, "name"@),
        popularity_column_spec(),
    ]
}

/// The schema with the popularity counter appended to `texts`, `templates`,
/// `projects` and `categories`, in that order.
pub open spec fn with_popularity(tables: Seq<TableSpec>) -> Seq<TableSpec> {
    let p = seq![popularity_column_spec()];
    with_columns_added(
        with_columns_added(
            with_columns_added(with_columns_added(tables, "texts"@, p), "templates"@, p),
            "projects"@,
            p,
        ),
        "categories"@,
        p,
    )
}

/// Version 4 counts clicks: on the four item tables and on the main navigation.
pub open spec fn tables_spec() -> Seq<TableSpec> {
    with_popularity(version3::tables_spec()).push(
        table_spec("main_nav_clicks"@, main_nav_clicks_columns_spec(), Seq::empty()),
    )
}

pub open spec fn changes_spec() -> Seq<SchemaChange> {
    seq![
        SchemaChange::AddColumn { table: "texts"@, column: popularity_column_spec() },
        SchemaChange::AddColumn { table: "templates"@, column: popularity_column_spec() },
        SchemaChange::AddColumn { table: "projects"@, column: popularity_column_spec() },
        SchemaChange::AddColumn { table: "categories"@, column: popularity_column_spec() },
        SchemaChange::CreateTable {
            table: "main_nav_clicks"@,
            columns: main_nav_clicks_columns_spec(),
        },
    ]
}

pub fn entire_table() -> (tables: Vec<ADbTable>)
    ensures
        tables_view(tables@) == tables_spec(),
{
    let mut tables = version3::entire_table();
    push_column_where(&mut tables, "texts", &popularity_column());
    push_column_where(&mut tables, "templates", &popularity_column());
    push_column_where(&mut tables, "projects", &popularity_column());
    push_column_where(&mut tables, "categories", &popularity_column());
    let ghost before = tables@;
    let clicks = ADbTable {
        table_name: "main_nav_clicks".to_string(),
        columns: main_nav_clicks_columns(),
        foreign_keys: Vec::new(),
    };
    assert(clicks@.foreign_keys =~= Seq::empty());
    tables.push(clicks);
    assert(tables_view(tables@) =~= tables_view(before).push(clicks@));
    tables
}

pub fn popularity_column() -> (c: ColumnDef)
    ensures
        c@ == popularity_column_spec(),
{
    ColumnDef {
        name: "popularity_ctr".to_string(),
        column_type: "INTEGER".to_string(),
        primary_key: false,
        not_null: true,
        unique: false,
        default_value: "0".to_string(),
        autoincrement: false,
    }
}

pub fn main_nav_clicks_columns() -> (cols: Vec<ColumnDef>)
    ensures
        columns_view(cols@) == main_nav_clicks_columns_spec(),
{
    let cols = vec![
        id_column(),
        not_null_unique_col(ColumnType::Text, "name"),
        popularity_column(),
    ];
    assert(columns_view(cols@) =~= main_nav_clicks_columns_spec());
    cols
}

pub fn update_from_old_version() -> (ops: Vec<MigrationOp>)
    ensures
        ops_view(ops@) == changes_spec(),
{
    let ops = vec![
        MigrationOp::AddColumn(
            AddColumnIn { table_name: "texts".to_string(), column: popularity_column() },
        ),
        MigrationOp::AddColumn(
            AddColumnIn { table_name: "templates".to_string(), column: popularity_column() },
        ),
        MigrationOp::AddColumn(
            AddColumnIn { table_name: "projects".to_string(), column: popularity_column() },
        ),
        MigrationOp::AddColumn(
            AddColumnIn { table_name: "categories".to_string(), column: popularity_column() },
        ),
        MigrationOp::CreateTable(
            CreateTableIn {
                table_name: "main_nav_clicks".to_string(),
                columns: main_nav_clicks_columns(),
            },
        ),
    ];
    assert(ops_view(ops@) =~= changes_spec());
    ops
}

} // verus!
