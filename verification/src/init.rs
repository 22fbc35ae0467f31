use vstd::prelude::*;
use crate::migration::schema_versions::{
    CURRENT_VERSION, SchemaVersion, version_number, version_of_number,
};
use crate::new_table::{
    ColumnType, ColumnSpec, columns_view, id_column, id_column_spec, not_null_col,
    not_null_col_spec,
};
use crate::payload::{
    ArgSpec, ArgsSpec, ColumnValue, CreateFts5TableIn, CreateTableIn, EditColInRowIn, EditSpec,
    GetDataIn, InsertDataIn, InsertSpec, QuerySpec, SelectArgument, SelectArguments, edit_spec,
    insert_spec, query_spec, strings_view,
};
use crate::row_col::{Col, ColSpec};
use crate::text::starts_with;
use crate::migration::helpers::apply_changes;
use crate::migration::schemas::schema_spec;
use crate::migration::update_from_old_schema::{
    changes_to_current, law_migration_reaches_current_schema, table_names,
};

verus! {

/// The names of the tables of a database, as values.
pub open spec fn names_view(names: Seq<String>) -> Seq<Seq<char>> {
    names.map_values(|s: String| s@)
}

/// Whether a table of this name is among `names`.
pub fn has_table(names: &Vec<String>, name: &str) -> (r: bool)
    ensures
        r == names_view(names@).contains(name@),
{
    let target = name.to_string();
    let mut i: usize = 0;
    while i < names.len()
        invariant
            i <= names@.len(),
            target@ == name@,
            forall|j: int| 0 <= j < i ==> names@[j]@ != name@,
        decreases names@.len() - i,
    {
        if names[i] == target {
            assert(names_view(names@)[i as int] == name@);
            return true;
        }
        i += 1;
    }
    assert forall|j: int| 0 <= j < names_view(names@).len() implies names_view(names@)[j]
        != name@ by {
        assert(names_view(names@)[j] == names@[j]@);
    }
    false
}

/// The table that records which schema version the database has.
pub fn version_table() -> (t: CreateTableIn)
    ensures
        t.table_name@ == "schema_version"@,
        columns_view(t.columns@) == seq![
            id_column_spec(),
            not_null_col_spec(ColumnType::Integer, "version"@),
        ],
{
    let t = CreateTableIn {
        table_name: "schema_version".to_string(),
        columns: vec![id_column(), not_null_col(ColumnType::Integer, "version")],
    };
    assert(columns_view(t.columns@) =~= seq![
        id_column_spec(),
        not_null_col_spec(ColumnType::Integer, "version"@),
    ]);
    t
}

/// The query for the stored schema version.
pub fn version_query() -> (q: GetDataIn)
    ensures
        q@ == query_spec("schema_version"@, ArgsSpec::Single(ArgSpec::All), seq!["version"@]),
{
    let q = GetDataIn {
        table_name: "schema_version".to_string(),
        arguments: SelectArguments::Single(SelectArgument::All),
        columns_to_read: vec!["version".to_string()],
    };
    assert(q@.columns =~= seq!["version"@]);
    q
}

/// What opening the database does to its schema.
#[derive(PartialEq, Eq, Structural, Clone, Copy, Debug)]
pub enum SchemaAction {
    /// There is no `texts` table yet: create the current schema from scratch.
    CreateFromScratch,
    /// The schema is of this older version: migrate it to the current one.
    Migrate(SchemaVersion),
    /// The schema is current.
    UpToDate,
}

/// The version a stored number stands for; a missing or unknown number
/// counts as the first version.
pub open spec fn stored_version_spec(stored: Option<i64>) -> SchemaVersion {
    match stored {
        Some(n) => match version_of_number(n as int) {
            Some(v) => v,
            None => SchemaVersion::Version0,
        },
        None => SchemaVersion::Version0,
    }
}

pub fn stored_version(stored: Option<i64>) -> (v: SchemaVersion)
    ensures
        v == stored_version_spec(stored),
{
    match stored {
        Some(n) => match SchemaVersion::from_int(n) {
            Some(v) => v,
            None => SchemaVersion::Version0,
        },
        None => SchemaVersion::Version0,
    }
}

pub open spec fn schema_action_spec(names: Seq<Seq<char>>, stored: Option<i64>) -> SchemaAction {
    if !names.contains("texts"@) {
        SchemaAction::CreateFromScratch
    } else if stored_version_spec(stored) == CURRENT_VERSION {
        SchemaAction::UpToDate
    } else {
        SchemaAction::Migrate(stored_version_spec(stored))
    }
}

/// Decides what to do with the schema, given the tables there are and the
/// version number stored, if any.
pub fn schema_action(table_names: &Vec<String>, stored: Option<i64>) -> (a: SchemaAction)
    ensures
        a == schema_action_spec(names_view(table_names@), stored),
{
    if !has_table(table_names, "texts") {
        return SchemaAction::CreateFromScratch;
    }
    let v = stored_version(stored);
    if v == CURRENT_VERSION {
        SchemaAction::UpToDate
    } else {
        SchemaAction::Migrate(v)
    }
}

/// How a version number is written: over the stored one, or as the first row.
pub enum VersionWrite {
    Edit(EditColInRowIn),
    Insert(InsertDataIn),
}

/// Writes version number `v`; `stored` is what reading the version gave.
pub fn version_write(stored: Option<i64>, v: i64) -> (w: VersionWrite)
    ensures
        stored is Some ==> (w matches VersionWrite::Edit(e) && e@ == edit_spec(
            "schema_version"@,
            "1"@,
            "version"@,
            ColSpec::Integer(v as int),
        )),
        stored is None ==> (w matches VersionWrite::Insert(r) && r@ == insert_spec(
            "schema_version"@,
            seq![("version"@, ColSpec::Integer(v as int))],
        )),
{
    match stored {
        Some(_) => VersionWrite::Edit(
            EditColInRowIn {
                table_name: "schema_version".to_string(),
                row_id: "1".to_string(),
                column: "version".to_string(),
                new_value: Col::Integer(v),
            },
        ),
        None => {
            let r = InsertDataIn {
                table_name: "schema_version".to_string(),
                values: vec![
                    ColumnValue { column_name: "version".to_string(), value: Col::Integer(v) },
                ],
            };
            assert(r@.values =~= seq![("version"@, ColSpec::Integer(v as int))]);
            VersionWrite::Insert(r)
        },
    }
}

/// Whether some table name begins with `fts5_`.
pub open spec fn has_fts5_table(names: Seq<Seq<char>>) -> bool {
    exists|i: int|
        0 <= i < names.len() && "fts5_"@.len() <= names[i].len() && #[trigger] names[i].subrange(
            0,
            "fts5_"@.len() as int,
        ) == "fts5_"@
}

/// The full-text index to create over the keywords, unless one is there already.
pub fn fts5_setup(table_names: &Vec<String>) -> (r: Option<CreateFts5TableIn>)
    ensures
        has_fts5_table(names_view(table_names@)) ==> r is None,
        !has_fts5_table(names_view(table_names@)) ==> (r matches Some(c)
            && c.source_table_name@ == "keyword_lookup"@ && strings_view(c.columns@)
            == seq!["keyword"@]),
{
    let ghost nv = names_view(table_names@);
    let mut i: usize = 0;
    while i < table_names.len()
        invariant
            i <= table_names@.len(),
            nv == names_view(table_names@),
            forall|j: int|
                0 <= j < i ==> !("fts5_"@.len() <= nv[j].len() && #[trigger] nv[j].subrange(
                    0,
                    "fts5_"@.len() as int,
                ) == "fts5_"@),
        decreases table_names@.len() - i,
    {
        if starts_with(table_names[i].as_str(), "fts5_") {
            assert(nv[i as int] == table_names@[i as int]@);
            return None;
        }
        assert(nv[i as int] == table_names@[i as int]@);
        i += 1;
    }
    let c = CreateFts5TableIn {
        source_table_name: "keyword_lookup".to_string(),
        columns: vec!["keyword".to_string()],
    };
    assert(strings_view(c.columns@) =~= seq!["keyword"@]);
    Some(c)
}

/// A database migrated from any version ends with the tables of a fresh
/// one, so opening either sets up the full-text index alike.
pub proof fn law_migrated_and_fresh_get_the_same_index(v: SchemaVersion)
    ensures
        has_fts5_table(table_names(apply_changes(schema_spec(v), changes_to_current(v))))
            == has_fts5_table(table_names(schema_spec(CURRENT_VERSION))),
        table_names(apply_changes(schema_spec(v), changes_to_current(v))).contains("texts"@)
            == table_names(schema_spec(CURRENT_VERSION)).contains("texts"@),
{
    law_migration_reaches_current_schema(v);
}

} // verus!
