use vstd::prelude::*;
use crate::migration::helpers::{ADbTable, TableSpec, table_spec, tables_view};
use crate::new_table::{
    ColumnDef, ColumnSpec, ColumnType, ForeignKeyDef, ForeignKeySpec, column_spec, columns_view,
    foreign_key_spec, foreign_keys_view, id_column, id_column_spec, not_null_col, not_null_col_spec,
    not_null_unique_col, not_null_unique_col_spec,
};

verus! {

/// A column that may hold NULL, of the given type, without default.
pub open spec fn nullable_spec(name: Seq<char>, column_type: Seq<char>) -> ColumnSpec {
    column_spec(name, column_type, false, false, false, Seq::empty(), false)
}

pub open spec fn categories_columns_spec() -> Seq<ColumnSpec> {
    seq![id_column_spec(), not_null_unique_col_spec(ColumnType::Text, "name"@)]
}

pub open spec fn texts_columns_spec() -> Seq<ColumnSpec> {
    seq![
        id_column_spec(),
        not_null_col_spec(ColumnType::Text, "title"@),
        not_null_col_spec(ColumnType::Text, "body"@),
        nullable_spec("category_id"@, "INTEGER"@),
        nullable_spec("meta_category_id"@, "INTEGER"@),
        nullable_spec("type_of_text"@, "TEXT"@),
    ]
}

pub open spec fn keyword_lookup_columns_spec() -> Seq<ColumnSpec> {
    seq![
        id_column_spec(),
        not_null_col_spec(ColumnType::Integer, "text_id"@),
        not_null_col_spec(ColumnType::Text, "keyword"@),
    ]
}

pub open spec fn logs_columns_spec() -> Seq<ColumnSpec> {
    seq![
        id_column_spec(),
        not_null_col_spec(ColumnType::Integer, "timestamp"@),
        not_null_col_spec(ColumnType::Text, "level"@),
        not_null_col_spec(ColumnType::Text, "category"@),
        not_null_col_spec(ColumnType::Text, "source"@),
        not_null_col_spec(ColumnType::Text, "session_id"@),
        not_null_col_spec(ColumnType::Text, "message"@),
        nullable_spec("details"@, "BLOB"@),
        nullable_spec("details_type"@, "TEXT"@),
    ]
}

pub open spec fn templates_columns_spec() -> Seq<ColumnSpec> {
    seq![
        id_column_spec(),
        not_null_col_spec(ColumnType::Text, "title"@),
        not_null_col_spec(ColumnType::Text, "content"@),
        nullable_spec("instructions"@, "TEXT"@),
        nullable_spec("example"@, "TEXT"@),
        nullable_spec("category_id"@, "INTEGER"@),
        nullable_spec("meta_category_id"@, "INTEGER"@),
    ]
}

pub open spec fn template_fills_columns_spec() -> Seq<ColumnSpec> {
    seq![
        id_column_spec(),
        not_null_col_spec(ColumnType::Integer, "template_id"@),
        nullable_spec("label"@, "TEXT"@),
        not_null_col_spec(ColumnType::Text, "values_json"@),
    ]
}

pub open spec fn key_value_storage_columns_spec() -> Seq<ColumnSpec> {
    seq![
        id_column_spec(),
        not_null_unique_col_spec(ColumnType::Text, "key"@),
        not_null_col_spec(ColumnType::Text, "value"@),
    ]
}

/// `column` refers to the `id` of the row it names in `referenced_table`.
pub open spec fn id_reference_spec(column: Seq<char>, referenced_table: Seq<char>) -> ForeignKeySpec {
    foreign_key_spec(column, referenced_table, "id"@)
}

pub open spec fn keyword_lookup_foreign_keys_spec() -> Seq<ForeignKeySpec> {
    seq![id_reference_spec("text_id"@, "texts"@)]
}

/// The seven tables of the first schema.
pub open spec fn tables_spec() -> Seq<TableSpec> {
    seq![
        table_spec("categories"@, categories_columns_spec(), Seq::empty()),
        table_spec(
            "texts"@,
            texts_columns_spec(),
            seq![
                id_reference_spec("category_id"@, "categories"@),
                id_reference_spec("meta_category_id"@, "categories"@),
            ],
        ),
        table_spec("keyword_lookup"@, keyword_lookup_columns_spec(), keyword_lookup_foreign_keys_spec()),
        table_spec("logs"@, logs_columns_spec(), Seq::empty()),
        table_spec("key_value_storage"@, key_value_storage_columns_spec(), Seq::empty()),
        table_spec(
            "templates"@,
            templates_columns_spec(),
            seq![
                id_reference_spec("category_id"@, "categories"@),
                id_reference_spec("meta_category_id"@, "categories"@),
            ],
        ),
        table_spec(
            "template_fills"@,
            template_fills_columns_spec(),
            seq![id_reference_spec("template_id"@, "templates"@)],
        ),
    ]
}

fn id_reference(column: &str, referenced_table: &str) -> (f: ForeignKeyDef)
    ensures
        f@ == id_reference_spec(column@, referenced_table@),
{
    ForeignKeyDef {
        column: column.to_string(),
        referenced_table: referenced_table.to_string(),
        referenced_column: "id".to_string(),
    }
}

pub fn entire_table() -> (tables: Vec<ADbTable>)
    ensures
        tables_view(tables@) == tables_spec(),
{
    let texts_fks = vec![
        id_reference("category_id", "categories"),
        id_reference("meta_category_id", "categories"),
    ];
    assert(foreign_keys_view(texts_fks@) =~= tables_spec()[1].foreign_keys);
    let templates_fks = vec![
        id_reference("category_id", "categories"),
        id_reference("meta_category_id", "categories"),
    ];
    assert(foreign_keys_view(templates_fks@) =~= tables_spec()[5].foreign_keys);
    let fills_fks = vec![id_reference("template_id", "templates")];
    assert(foreign_keys_view(fills_fks@) =~= tables_spec()[6].foreign_keys);
    let keyword_fks = get_foreign_def_keyword_lookup();
    let empty1: Vec<ForeignKeyDef> = Vec::new();
    let empty2: Vec<ForeignKeyDef> = Vec::new();
    let empty3: Vec<ForeignKeyDef> = Vec::new();
    assert(foreign_keys_view(empty1@) =~= Seq::empty());
    assert(foreign_keys_view(empty2@) =~= Seq::empty());
    assert(foreign_keys_view(empty3@) =~= Seq::empty());
    let tables = vec![
        ADbTable {
            table_name: "categories".to_string(),
            columns: categories_columns(),
            foreign_keys: empty1,
        },
        ADbTable {
            table_name: "texts".to_string(),
            columns: texts_columns(),
            foreign_keys: texts_fks,
        },
        ADbTable {
            table_name: "keyword_lookup".to_string(),
            columns: keyword_lookup_columns(),
            foreign_keys: keyword_fks,
        },
        ADbTable {
            table_name: "logs".to_string(),
            columns: logs_columns(),
            foreign_keys: empty2,
        },
        ADbTable {
            table_name: "key_value_storage".to_string(),
            columns: key_value_storage_columns(),
            foreign_keys: empty3,
        },
        ADbTable {
            table_name: "templates".to_string(),
            columns: templates_columns(),
            foreign_keys: templates_fks,
        },
        ADbTable {
            table_name: "template_fills".to_string(),
            columns: template_fills_columns(),
            foreign_keys: fills_fks,
        },
    ];
    assert(tables_view(tables@) =~= tables_spec());
    tables
}

pub fn categories_columns() -> (cols: Vec<ColumnDef>)
    ensures
        columns_view(cols@) == categories_columns_spec(),
{
    let cols = vec![id_column(), not_null_unique_col(ColumnType::Text, "name")];
    assert(columns_view(cols@) =~= categories_columns_spec());
    cols
}

pub fn texts_columns() -> (cols: Vec<ColumnDef>)
    ensures
        columns_view(cols@) == texts_columns_spec(),
{
    let cols = vec![
        id_column(),
        not_null_col(ColumnType::Text, "title"),
        not_null_col(ColumnType::Text, "body"),
        nullable_text_or_int("category_id", "INTEGER"),
        nullable_text_or_int("meta_category_id", "INTEGER"),
        nullable_text_or_int("type_of_text", "TEXT"),
    ];
    assert(columns_view(cols@) =~= texts_columns_spec());
    cols
}

pub fn keyword_lookup_columns() -> (cols: Vec<ColumnDef>)
    ensures
        columns_view(cols@) == keyword_lookup_columns_spec(),
{
    let cols = vec![
        id_column(),
        not_null_col(ColumnType::Integer, "text_id"),
        not_null_col(ColumnType::Text, "keyword"),
    ];
    assert(columns_view(cols@) =~= keyword_lookup_columns_spec());
    cols
}

pub fn logs_columns() -> (cols: Vec<ColumnDef>)
    ensures
        columns_view(cols@) == logs_columns_spec(),
{
    let cols = vec![
        id_column(),
        not_null_col(ColumnType::Integer, "timestamp"),
        not_null_col(ColumnType::Text, "level"),
        not_null_col(ColumnType::Text, "category"),
        not_null_col(ColumnType::Text, "source"),
        not_null_col(ColumnType::Text, "session_id"),
        not_null_col(ColumnType::Text, "message"),
        nullable_text_or_int("details", "BLOB"),
        nullable_text_or_int("details_type", "TEXT"),
    ];
    assert(columns_view(cols@) =~= logs_columns_spec());
    cols
}

pub fn templates_columns() -> (cols: Vec<ColumnDef>)
    ensures
        columns_view(cols@) == templates_columns_spec(),
{
    let cols = vec![
        id_column(),
        not_null_col(ColumnType::Text, "title"),
        not_null_col(ColumnType::Text, "content"),
        nullable_text_or_int("instructions", "TEXT"),
        nullable_text_or_int("example", "TEXT"),
        nullable_text_or_int("category_id", "INTEGER"),
        nullable_text_or_int("meta_category_id", "INTEGER"),
    ];
    assert(columns_view(cols@) =~= templates_columns_spec());
    cols
}

pub fn template_fills_columns() -> (cols: Vec<ColumnDef>)
    ensures
        columns_view(cols@) == template_fills_columns_spec(),
{
    let cols = vec![
        id_column(),
        not_null_col(ColumnType::Integer, "template_id"),
        nullable_text_or_int("label", "TEXT"),
        not_null_col(ColumnType::Text, "values_json"),
    ];
    assert(columns_view(cols@) =~= template_fills_columns_spec());
    cols
}

pub fn key_value_storage_columns() -> (cols: Vec<ColumnDef>)
    ensures
        columns_view(cols@) == key_value_storage_columns_spec(),
{
    let cols = vec![
        id_column(),
        not_null_unique_col(ColumnType::Text, "key"),
        not_null_col(ColumnType::Text, "value"),
    ];
    assert(columns_view(cols@) =~= key_value_storage_columns_spec());
    cols
}

pub fn get_foreign_def_keyword_lookup() -> (fks: Vec<ForeignKeyDef>)
    ensures
        foreign_keys_view(fks@) == keyword_lookup_foreign_keys_spec(),
{
    let fks = vec![id_reference("text_id", "texts")];
    assert(foreign_keys_view(fks@) =~= keyword_lookup_foreign_keys_spec());
    fks
}

fn nullable_text_or_int(name: &str, column_type: &str) -> (c: ColumnDef)
    ensures
        c@ == nullable_spec(name@, column_type@),
{
    ColumnDef {
        name: name.to_string(),
        column_type: column_type.to_string(),
        primary_key: false,
        not_null: false,
        unique: false,
        default_value: String::new(),
        autoincrement: false,
    }
}

} // verus!
