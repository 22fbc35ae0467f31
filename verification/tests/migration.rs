use zutil::init::fts5_setup;
use zutil::migration::helpers::{apply_ops, ADbTable};
use zutil::migration::schema_versions::{SchemaVersion, CURRENT_VERSION};
use zutil::migration::schemas::{
    current, version0, version1, version2, version3, version4, version5, version6, version7,
};
use zutil::migration::update_from_old_schema::update_until_newest_version;

fn migrate(start: Vec<ADbTable>, from: SchemaVersion) -> (SchemaVersion, Vec<ADbTable>) {
    let mut plan = Vec::new();
    let v = update_until_newest_version(from, &mut plan);
    (v, apply_ops(start, plan))
}

fn names(tables: &[ADbTable]) -> Vec<String> {
    tables.iter().map(|t| t.table_name.clone()).collect()
}

fn has_fts5_table(names: &[String]) -> bool {
    names.iter().any(|t| t.starts_with("fts5_"))
}

/// The tables once the full-text index is set up, as the database names it.
fn with_fts5(mut names: Vec<String>) -> Vec<String> {
    if let Some(req) = fts5_setup(&names) {
        names.push(format!("fts5_{}", req.source_table_name));
    }
    names
}

#[test]
fn migration_chain_reaches_current_version() {
    let (result, migrated) = migrate(version0::entire_table(), SchemaVersion::Version0);
    let expected_result = CURRENT_VERSION;
    assert_eq!(result, expected_result);

    assert_eq!(migrated, current::entire_table());
}

#[test]
fn migrated_db_gets_fts5() {
    let (_, migrated) = migrate(version0::entire_table(), SchemaVersion::Version0);
    let tables = with_fts5(names(&migrated));

    let result = has_fts5_table(&tables);
    let expected_result = true;
    assert_eq!(result, expected_result);
}

#[test]
fn fresh_db_and_migrated_db_have_same_fts5() {
    let fresh = with_fts5(names(&current::entire_table()));
    let (_, migrated) = migrate(version0::entire_table(), SchemaVersion::Version0);
    let migrated = with_fts5(names(&migrated));

    let result = (has_fts5_table(&fresh), has_fts5_table(&migrated));
    let expected_result = (true, true);
    assert_eq!(result, expected_result);
}

#[test]
fn migration_v3_to_v4_adds_popularity_and_main_nav_clicks() {
    let (_, migrated) = migrate(version3::entire_table(), SchemaVersion::Version3);

    for table in ["texts", "templates", "projects", "categories"] {
        let t = migrated.iter().find(|t| t.table_name == table).unwrap();
        assert!(
            t.columns.iter().any(|c| c.name == "popularity_ctr"),
            "{} missing popularity_ctr",
            table
        );
    }

    let names = names(&migrated);
    assert!(
        names.contains(&"main_nav_clicks".to_string()),
        "main_nav_clicks missing"
    );

    assert_eq!(migrated, current::entire_table());
}

#[test]
fn fts5_is_set_up_only_once() {
    let tables = with_fts5(names(&current::entire_table()));
    assert!(fts5_setup(&tables).is_none());
    let req = fts5_setup(&names(&current::entire_table())).unwrap();
    assert_eq!(req.source_table_name, "keyword_lookup");
    assert_eq!(req.columns, vec!["keyword".to_string()]);
}

#[test]
fn every_old_version_migrates_to_the_current_schema() {
    let starts = vec![
        (version1::entire_table(), SchemaVersion::Version1),
        (version2::entire_table(), SchemaVersion::Version2),
        (version4::entire_table(), SchemaVersion::Version4),
        (version5::entire_table(), SchemaVersion::Version5),
        (version6::entire_table(), SchemaVersion::Version6),
        (version7::entire_table(), SchemaVersion::Version7),
    ];
    for (tables, v) in starts {
        let (reached, migrated) = migrate(tables, v);
        assert_eq!(reached, CURRENT_VERSION);
        assert_eq!(migrated, current::entire_table(), "{:?}", v);
    }
}

#[test]
fn schema_version_numbers_round_trip() {
    for n in 0..=7i64 {
        let v = SchemaVersion::from_int(n).unwrap();
        assert_eq!(v.to_int(), n);
    }
    assert_eq!(SchemaVersion::from_int(8), None);
    assert_eq!(SchemaVersion::from_int(-1), None);
}
