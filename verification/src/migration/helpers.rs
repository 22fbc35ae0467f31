use vstd::prelude::*;
use crate::new_table::{
    ColumnDef, ColumnSpec, ForeignKeyDef, ForeignKeySpec, columns_view, foreign_keys_view,
};
use crate::payload::{AddColumnIn, CreateTableIn, DropTableIn};

verus! {

/// One table of a schema: its name, its columns in order and its foreign keys.
#[derive(Debug, PartialEq, Eq)]
pub struct ADbTable {
    pub table_name: String,
    pub columns: Vec<ColumnDef>,
    pub foreign_keys: Vec<ForeignKeyDef>,
}

pub struct TableSpec {
    pub name: Seq<char>,
    pub columns: Seq<ColumnSpec>,
    pub foreign_keys: Seq<ForeignKeySpec>,
}

impl View for ADbTable {
    type V = TableSpec;

    open spec fn view(&self) -> TableSpec {
        TableSpec {
            name: self.table_name@,
            columns: columns_view(self.columns@),
            foreign_keys: foreign_keys_view(self.foreign_keys@),
        }
    }
}

/// The views of the tables of a schema, in order.
pub open spec fn tables_view(tables: Seq<ADbTable>) -> Seq<TableSpec> {
    tables.map_values(|t: ADbTable| t@)
}

pub open spec fn table_spec(
    name: Seq<char>,
    columns: Seq<ColumnSpec>,
    foreign_keys: Seq<ForeignKeySpec>,
) -> TableSpec {
    TableSpec { name, columns, foreign_keys }
}

/// Appends `extra` to the columns of every table whose name is `name`.
pub open spec fn with_columns_added(
    tables: Seq<TableSpec>,
    name: Seq<char>,
    extra: Seq<ColumnSpec>,
) -> Seq<TableSpec> {
    tables.map_values(
        |t: TableSpec|
            if t.name == name {
                TableSpec { name: t.name, columns: t.columns + extra, foreign_keys: t.foreign_keys }
            } else {
                t
            },
    )
}

/// One change that a migration makes to a schema.
pub enum SchemaChange {
    AddColumn { table: Seq<char>, column: ColumnSpec },
    CreateTable { table: Seq<char>, columns: Seq<ColumnSpec> },
    DropTable { table: Seq<char> },
}

/// What a change does to the list of tables: a new column goes to the end of
/// the named table, a new table goes to the end of the schema, and a dropped
/// table leaves it.
pub open spec fn apply_change(tables: Seq<TableSpec>, c: SchemaChange) -> Seq<TableSpec> {
    match c {
        SchemaChange::AddColumn { table, column } => with_columns_added(
            tables,
            table,
            seq![column],
        ),
        SchemaChange::CreateTable { table, columns } => tables.push(
            table_spec(table, columns, Seq::empty()),
        ),
        SchemaChange::DropTable { table } => tables.filter(|t: TableSpec| t.name != table),
    }
}

/// Applies the changes in order.
pub open spec fn apply_changes(tables: Seq<TableSpec>, cs: Seq<SchemaChange>) -> Seq<
    TableSpec,
>
    decreases cs.len(),
{
    if cs.len() == 0 {
        tables
    } else {
        apply_changes(apply_change(tables, cs[0]), cs.drop_first())
    }
}

/// A schema change as the database is asked to make it.
#[derive(Debug)]
pub enum MigrationOp {
    AddColumn(AddColumnIn),
    CreateTable(CreateTableIn),
    DropTable(DropTableIn),
}

impl View for MigrationOp {
    type V = SchemaChange;

    open spec fn view(&self) -> SchemaChange {
        match self {
            MigrationOp::AddColumn(a) => SchemaChange::AddColumn {
                table: a.table_name@,
                column: a.column@,
            },
            MigrationOp::CreateTable(c) => SchemaChange::CreateTable {
                table: c.table_name@,
                columns: columns_view(c.columns@),
            },
            MigrationOp::DropTable(d) => SchemaChange::DropTable { table: d.table_name@ },
        }
    }
}

pub open spec fn ops_view(ops: Seq<MigrationOp>) -> Seq<SchemaChange> {
    ops.map_values(|o: MigrationOp| o@)
}

pub proof fn lemma_apply_changes_append(
    tables: Seq<TableSpec>,
    a: Seq<SchemaChange>,
    b: Seq<SchemaChange>,
)
    ensures
        apply_changes(tables, a + b) == apply_changes(apply_changes(tables, a), b),
    decreases a.len(),
{
    if a.len() == 0 {
        assert(a + b =~= b);
    } else {
        assert((a + b).drop_first() =~= a.drop_first() + b);
        lemma_apply_changes_append(apply_change(tables, a[0]), a.drop_first(), b);
    }
}

/// Appends a copy of `col` to the columns of every table named `name`.
pub fn push_column_where(tables: &mut Vec<ADbTable>, name: &str, col: &ColumnDef)
    ensures
        tables_view(final(tables)@) == with_columns_added(
            tables_view(old(tables)@),
            name@,
            seq![col@],
        ),
{
    let target = name.to_string();
    let ghost start = tables_view(tables@);
    let n = tables.len();
    let mut i: usize = 0;
    while i < n
        invariant
            n == tables@.len(),
            i <= n,
            start.len() == n,
            target@ == name@,
            forall|j: int|
                0 <= j < i ==> #[trigger] tables_view(tables@)[j] == with_columns_added(
                    start,
                    name@,
                    seq![col@],
                )[j],
            forall|j: int| i <= j < n ==> #[trigger] tables_view(tables@)[j] == start[j],
        decreases n - i,
    {
        let ghost before = tables@;
        if tables[i].table_name == target {
            let c = col.clone();
            tables[i].columns.push(c);
            assert(columns_view(tables@[i as int].columns@) =~= columns_view(
                before[i as int].columns@,
            ) + seq![col@]);
            assert(tables@[i as int].table_name == before[i as int].table_name);
            assert(tables@[i as int].foreign_keys == before[i as int].foreign_keys);
            assert(tables_view(before)[i as int] == start[i as int]);
            assert(start[i as int].name == name@);
            assert(tables_view(tables@)[i as int] == with_columns_added(
                start,
                name@,
                seq![col@],
            )[i as int]);
        }
        else {
            assert(tables_view(tables@)[i as int] == with_columns_added(
                start,
                name@,
                seq![col@],
            )[i as int]);
        }
        assert forall|j: int| 0 <= j < n && j != i implies #[trigger] tables_view(tables@)[j]
            == tables_view(before)[j] by {
            assert(tables@[j] == before[j]);
        }
        i += 1;
    }
    assert(tables_view(tables@) =~= with_columns_added(start, name@, seq![col@]));
}

/// The tables whose name is not `name`, in order.
pub fn drop_tables_named(tables: Vec<ADbTable>, name: &str) -> (kept: Vec<ADbTable>)
    ensures
        tables_view(kept@) == tables_view(tables@).filter(|t: TableSpec| t.name != name@),
{
    let ghost all = tables_view(tables@);
    let ghost pred = |t: TableSpec| t.name != name@;
    let target = name.to_string();
    let mut kept: Vec<ADbTable> = Vec::new();
    for t in it: tables
        invariant
            it.seq() == tables@,
            all == tables_view(tables@),
            pred == (|t: TableSpec| t.name != name@),
            target@ == name@,
            tables_view(kept@) == all.take(it.index() as int).filter(pred),
    {
        let ghost k = it.index() as int;
        let ghost before = tables_view(kept@);
        proof {
            reveal(Seq::filter);
            assert(all.take(k + 1).drop_last() =~= all.take(k));
            assert(all.take(k + 1).last() == t@);
        }
        if !(t.table_name == target) {
            kept.push(t);
            assert(tables_view(kept@) =~= before.push(kept@.last()@));
        }
    }
    proof {
        assert(all.take(all.len() as int) =~= all);
    }
    kept
}

/// Makes one change to a schema held in memory, as the database makes it.
pub fn apply_op(tables: Vec<ADbTable>, op: MigrationOp) -> (out: Vec<ADbTable>)
    ensures
        tables_view(out@) == apply_change(tables_view(tables@), op@),
{
    match op {
        MigrationOp::AddColumn(a) => {
            let mut tables = tables;
            push_column_where(&mut tables, a.table_name.as_str(), &a.column);
            tables
        },
        MigrationOp::CreateTable(c) => {
            let mut tables = tables;
            let ghost before = tables_view(tables@);
            let t = ADbTable { table_name: c.table_name, columns: c.columns, foreign_keys: Vec::new() };
            assert(t@ == table_spec(c.table_name@, columns_view(c.columns@), Seq::empty())) by {
                assert(foreign_keys_view(t.foreign_keys@) =~= Seq::empty());
            }
            tables.push(t);
            assert(tables_view(tables@) =~= before.push(t@));
            tables
        },
        MigrationOp::DropTable(d) => drop_tables_named(tables, d.table_name.as_str()),
    }
}

/// Makes the changes to a schema held in memory, in order.
pub fn apply_ops(tables: Vec<ADbTable>, ops: Vec<MigrationOp>) -> (out: Vec<ADbTable>)
    ensures
        tables_view(out@) == apply_changes(tables_view(tables@), ops_view(ops@)),
{
    let ghost start = tables_view(tables@);
    let ghost changes = ops_view(ops@);
    let mut current = tables;
    for op in it: ops
        invariant
            it.seq() == ops@,
            changes == ops_view(ops@),
            tables_view(current@) == apply_changes(start, changes.take(it.index() as int)),
    {
        let ghost k = it.index() as int;
        let ghost c = op@;
        let ghost mid = tables_view(current@);
        proof {
            assert(changes.take(k + 1) =~= changes.take(k) + seq![c]);
            lemma_apply_changes_append(start, changes.take(k), seq![c]);
            assert(seq![c].drop_first() =~= Seq::<SchemaChange>::empty());
            assert(apply_changes(mid, seq![c]) == apply_changes(apply_change(mid, c), Seq::empty()));
        }
        current = apply_op(current, op);
    }
    proof {
        assert(changes.take(changes.len() as int) =~= changes);
    }
    current
}

} // verus!
