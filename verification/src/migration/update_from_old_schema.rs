use vstd::prelude::*;
use crate::migration::helpers::{
    MigrationOp, SchemaChange, TableSpec, apply_change, apply_changes,
    lemma_apply_changes_append, ops_view, with_columns_added,
};
use crate::migration::schema_versions::{CURRENT_VERSION, SchemaVersion, version_number};
use crate::migration::schemas::{
    schema_spec, version0, version1, version2, version3, version4, version5, version6, version7,
};
use crate::new_table::ColumnSpec;

verus! {

/// The version that a migration step leads to; the current version stays.
pub open spec fn next_version(v: SchemaVersion) -> SchemaVersion {
    match v {
        SchemaVersion::Version0 => SchemaVersion::Version1,
        SchemaVersion::Version1 => SchemaVersion::Version2,
        SchemaVersion::Version2 => SchemaVersion::Version3,
        SchemaVersion::Version3 => SchemaVersion::Version4,
        SchemaVersion::Version4 => SchemaVersion::Version5,
        SchemaVersion::Version5 => SchemaVersion::Version6,
        SchemaVersion::Version6 => SchemaVersion::Version7,
        SchemaVersion::Version7 => SchemaVersion::Version7,
    }
}

/// The changes that the step out of `v` makes to the database.
pub open spec fn step_changes(v: SchemaVersion) -> Seq<SchemaChange> {
    match v {
        SchemaVersion::Version0 => version1::changes_spec(),
        SchemaVersion::Version1 => version2::changes_spec(),
        SchemaVersion::Version2 => version3::changes_spec(),
        SchemaVersion::Version3 => version4::changes_spec(),
        SchemaVersion::Version4 => version5::changes_spec(),
        SchemaVersion::Version5 => version6::changes_spec(),
        SchemaVersion::Version6 => version7::changes_spec(),
        SchemaVersion::Version7 => Seq::empty(),
    }
}

/// All the changes that bring a database of version `v` to the current version.
pub open spec fn changes_to_current(v: SchemaVersion) -> Seq<SchemaChange>
    decreases 7 - version_number(v),
{
    if v == CURRENT_VERSION {
        Seq::empty()
    } else {
        step_changes(v) + changes_to_current(next_version(v))
    }
}

/// Moves one version up: the step's changes are appended to `plan`, in the
/// order in which the database has to make them.
pub fn update_once(current: SchemaVersion, plan: &mut Vec<MigrationOp>) -> (next: SchemaVersion)
    ensures
        next == next_version(current),
        ops_view(final(plan)@) == ops_view(old(plan)@) + step_changes(current),
{
    let ghost start = plan@;
    let (mut ops, next) = match current {
        SchemaVersion::Version0 => (version1::update_from_old_version(), SchemaVersion::Version1),
        SchemaVersion::Version1 => (version2::update_from_old_version(), SchemaVersion::Version2),
        SchemaVersion::Version2 => (version3::update_from_old_version(), SchemaVersion::Version3),
        SchemaVersion::Version3 => (version4::update_from_old_version(), SchemaVersion::Version4),
        SchemaVersion::Version4 => (version5::update_from_old_version(), SchemaVersion::Version5),
        SchemaVersion::Version5 => (version6::update_from_old_version(), SchemaVersion::Version6),
        SchemaVersion::Version6 => (version7::update_from_old_version(), SchemaVersion::Version7),
        SchemaVersion::Version7 => (Vec::new(), SchemaVersion::Version7),
    };
    let ghost added = ops@;
    assert(ops_view(added) =~= step_changes(current));
    plan.append(&mut ops);
    assert(ops_view(plan@) =~= ops_view(start) + ops_view(added));
    next
}

/// Steps up until the version no longer changes, which is the current one.
pub fn update_until_newest_version(current: SchemaVersion, plan: &mut Vec<MigrationOp>) -> (v:
    SchemaVersion)
    ensures
        v == CURRENT_VERSION,
        ops_view(final(plan)@) == ops_view(old(plan)@) + changes_to_current(current),
{
    let ghost start = ops_view(plan@);
    let mut v = current;
    loop
        invariant
            ops_view(plan@) + changes_to_current(v) == start + changes_to_current(current),
            start == ops_view(old(plan)@),
        decreases 7 - version_number(v),
    {
        let ghost before = ops_view(plan@);
        let next = update_once(v, plan);
        if next == v {
            assert(ops_view(plan@) =~= before);
            assert(changes_to_current(v) =~= Seq::empty());
            assert(ops_view(plan@) =~= ops_view(plan@) + changes_to_current(v));
            return next;
        }
        assert(changes_to_current(v) == step_changes(v) + changes_to_current(next));
        assert(ops_view(plan@) + changes_to_current(next) =~= before + changes_to_current(v));
        v = next;
    }
}

/// The table names of a schema, in order.
pub open spec fn table_names(tables: Seq<TableSpec>) -> Seq<Seq<char>> {
    tables.map_values(|t: TableSpec| t.name)
}

proof fn lemma_added_columns_keep_names(tables: Seq<TableSpec>, name: Seq<char>, extra: Seq<
    ColumnSpec,
>)
    ensures
        table_names(with_columns_added(tables, name, extra)) == table_names(tables),
{
    assert(table_names(with_columns_added(tables, name, extra)) =~= table_names(tables));
}

proof fn lemma_added_twice(tables: Seq<TableSpec>, name: Seq<char>, a: ColumnSpec, b: ColumnSpec)
    ensures
        with_columns_added(with_columns_added(tables, name, seq![a]), name, seq![b])
            == with_columns_added(tables, name, seq![a, b]),
{
    let lhs = with_columns_added(with_columns_added(tables, name, seq![a]), name, seq![b]);
    let rhs = with_columns_added(tables, name, seq![a, b]);
    assert forall|j: int| 0 <= j < tables.len() implies #[trigger] lhs[j] == rhs[j] by {
        if tables[j].name == name {
            assert(tables[j].columns + seq![a] + seq![b] =~= tables[j].columns + seq![a, b]);
        }
    }
    assert(lhs =~= rhs);
}

proof fn lemma_filter_keeps_all(s: Seq<TableSpec>, p: spec_fn(TableSpec) -> bool)
    requires
        forall|i: int| 0 <= i < s.len() ==> p(#[trigger] s[i]),
    ensures
        s.filter(p) == s,
    decreases s.len(),
{
    reveal(Seq::filter);
    if s.len() > 0 {
        lemma_filter_keeps_all(s.drop_last(), p);
        assert(s.drop_last().push(s.last()) =~= s);
    }
}

proof fn lemma_version4_has_no_shortcuts()
    ensures
        forall|i: int|
            0 <= i < version4::tables_spec().len() ==> #[trigger] version4::tables_spec()[i].name
                != "shortcuts"@,
{
    let v0 = version0::tables_spec();
    let p = seq![version4::popularity_column_spec()];
    let v1 = version1::tables_spec();
    let v2 = version2::tables_spec();
    let v3 = version3::tables_spec();
    lemma_added_columns_keep_names(
        v0,
        "categories"@,
        seq![version1::type_of_category_column_spec()],
    );
    assert(table_names(v2) =~= table_names(v1).push("projects"@));
    lemma_added_columns_keep_names(
        v2,
        "projects"@,
        seq![
            version3::nullable_int_spec("launch_zed"@),
            version3::nullable_int_spec("launch_adstud"@),
        ],
    );
    let t1 = with_columns_added(v3, "texts"@, p);
    let t2 = with_columns_added(t1, "templates"@, p);
    let t3 = with_columns_added(t2, "projects"@, p);
    lemma_added_columns_keep_names(v3, "texts"@, p);
    lemma_added_columns_keep_names(t1, "templates"@, p);
    lemma_added_columns_keep_names(t2, "projects"@, p);
    lemma_added_columns_keep_names(t3, "categories"@, p);
    let v4 = version4::tables_spec();
    assert(table_names(v4) =~= table_names(version4::with_popularity(v3)).push(
        "main_nav_clicks"@,
    ));
    reveal_strlit("categories");
    reveal_strlit("texts");
    reveal_strlit("keyword_lookup");
    reveal_strlit("logs");
    reveal_strlit("key_value_storage");
    reveal_strlit("templates");
    reveal_strlit("template_fills");
    reveal_strlit("projects");
    reveal_strlit("main_nav_clicks");
    reveal_strlit("shortcuts");
    assert(table_names(v0) =~= seq![
        "categories"@,
        "texts"@,
        "keyword_lookup"@,
        "logs"@,
        "key_value_storage"@,
        "templates"@,
        "template_fills"@,
    ]);
    let names = seq![
        "categories"@,
        "texts"@,
        "keyword_lookup"@,
        "logs"@,
        "key_value_storage"@,
        "templates"@,
        "template_fills"@,
        "projects"@,
        "main_nav_clicks"@,
    ];
    assert(table_names(v4) =~= names);
    assert("templates"@[0] != "shortcuts"@[0]);
    assert forall|i: int| 0 <= i < names.len() implies #[trigger] names[i] != "shortcuts"@ by {
        if i == 5 {
            assert(names[i][0] != "shortcuts"@[0]);
        } else {
            assert(names[i].len() != "shortcuts"@.len());
        }
    }
    assert forall|i: int| 0 <= i < v4.len() implies #[trigger] v4[i].name != "shortcuts"@ by {
        assert(table_names(v4)[i] == v4[i].name);
    }
}

/// Each migration step turns the schema of its version into the schema of
/// the next one.
pub proof fn lemma_step_migrates(v: SchemaVersion)
    ensures
        apply_changes(schema_spec(v), step_changes(v)) == schema_spec(next_version(v)),
{
    reveal_with_fuel(apply_changes, 6);
    match v {
        SchemaVersion::Version2 => {
            lemma_added_twice(
                version2::tables_spec(),
                "projects"@,
                version3::nullable_int_spec("launch_zed"@),
                version3::nullable_int_spec("launch_adstud"@),
            );
        },
        SchemaVersion::Version5 => {
            let v4 = version4::tables_spec();
            let shortcuts = crate::migration::helpers::table_spec(
                "shortcuts"@,
                version5::shortcuts_columns_spec(),
                Seq::empty(),
            );
            let keep = |t: TableSpec| t.name != "shortcuts"@;
            lemma_version4_has_no_shortcuts();
            v4.lemma_filter_push(shortcuts, keep);
            lemma_filter_keeps_all(v4, keep);
            let dropped = apply_change(version5::tables_spec(), step_changes(v)[0]);
            assert(dropped == v4);
        },
        _ => {},
    }
}

/// Migrating a database of any version runs it up to the current version,
/// and its schema is then the one that a fresh database is created with.
pub proof fn law_migration_reaches_current_schema(v: SchemaVersion)
    ensures
        apply_changes(schema_spec(v), changes_to_current(v)) == schema_spec(CURRENT_VERSION),
    decreases 7 - version_number(v),
{
    if v == CURRENT_VERSION {
        assert(changes_to_current(v) =~= Seq::<SchemaChange>::empty());
    } else {
        lemma_apply_changes_append(schema_spec(v), step_changes(v), changes_to_current(next_version(v)));
        lemma_step_migrates(v);
        law_migration_reaches_current_schema(next_version(v));
    }
}

} // verus!
