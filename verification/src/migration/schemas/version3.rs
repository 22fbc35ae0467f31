use vstd::prelude::*;
use crate::migration::helpers::{
    ADbTable, MigrationOp, SchemaChange, TableSpec, ops_view, push_column_where, tables_view,
    with_columns_added,
};
use crate::migration::schemas::version2;
use crate::new_table::{ColumnDef, ColumnSpec, column_spec};
use crate::payload::AddColumnIn;

verus! {

/// An INTEGER column that may be NULL and defaults to 0.
pub open spec fn nullable_int_spec(name: Seq<char>) -> ColumnSpec {
    column_spec(name, "INTEGER"@, false, false, false, "0"@, false)
}

/// Version 3 gives every project its two launch flags.
pub open spec fn tables_spec() -> Seq<TableSpec> {
    with_columns_added(
        version2::tables_spec(),
        "projects"@,
        seq![nullable_int_spec("launch_zed"@), nullable_int_spec("launch_adstud"@)],
    )
}

pub open spec fn changes_spec() -> Seq<SchemaChange> {
    seq![
        SchemaChange::AddColumn { table: "projects"@, column: nullable_int_spec("launch_zed"@) },
        SchemaChange::AddColumn { table: "projects"@, column: nullable_int_spec("launch_adstud"@) },
    ]
}

pub fn entire_table() -> (tables: Vec<ADbTable>)
    ensures
        tables_view(tables@) == tables_spec(),
{
    let mut tables = version2::entire_table();
    let ghost v2 = tables_view(tables@);
    push_column_where(&mut tables, "projects", &nullable_int("launch_zed"));
    push_column_where(&mut tables, "projects", &nullable_int("launch_adstud"));
    let ghost lz = nullable_int_spec("launch_zed"@);
    let ghost la = nullable_int_spec("launch_adstud"@);
    assert forall|j: int| 0 <= j < v2.len() implies #[trigger] tables_view(tables@)[j]
        == tables_spec()[j] by {
        if v2[j].name == "projects"@ {
            assert(v2[j].columns + seq![lz] + seq![la] =~= v2[j].columns + seq![lz, la]);
        }
    }
    assert(tables_view(tables@) =~= tables_spec());
    tables
}

fn nullable_int(name: &str) -> (c: ColumnDef)
    ensures
        c@ == nullable_int_spec(name@),
{
    ColumnDef {
        name: name.to_string(),
        column_type: "INTEGER".to_string(),
        primary_key: false,
        not_null: false,
        unique: false,
        default_value: "0".to_string(),
        autoincrement: false,
    }
}

pub fn update_from_old_version() -> (ops: Vec<MigrationOp>)
    ensures
        ops_view(ops@) == changes_spec(),
{
    let ops = vec![
        MigrationOp::AddColumn(
            AddColumnIn { table_name: "projects".to_string(), column: nullable_int("launch_zed") },
        ),
        MigrationOp::AddColumn(
            AddColumnIn {
                table_name: "projects".to_string(),
                column: nullable_int("launch_adstud"),
            },
        ),
    ];
    assert(ops_view(ops@) =~= changes_spec());
    ops
}

} // verus!
