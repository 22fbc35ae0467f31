use zutil::helpers::category::{category_col, category_to_resolve, find_category_query};
use zutil::helpers::edit::{edit_category_name, edit_text_title};
use zutil::helpers::error_log::{error_row, recent_errors, recent_errors_query, ErrorRow};
use zutil::helpers::popularity::{bump_edit, counter_for_display, counter_value, main_nav_bump, MainNavWrite};
use zutil::helpers::project::{new_row_project, normalize_path};
use zutil::helpers::read::{by_id_query, by_ids_query, first_row};
use zutil::helpers::search::{search_texts_by_title, search_templates_by_title};
use zutil::helpers::shortcuts::{
    clear_shortcut_query, combo_owner_of, deletes_for_rows, read_shortcut_query, shortcut_from_rows,
    shortcut_row, OWNER_MAIN_NAV,
};
use zutil::init::{has_table, schema_action, stored_version, version_write, SchemaAction, VersionWrite};
use zutil::migration::schema_versions::{SchemaVersion, CURRENT_VERSION};
use zutil::payload::{ColumnValue, GetDataIn, SelectArgument, SelectArguments};
use zutil::row_col::{Col, Row};

fn text(s: &str) -> Col {
    Col::Text(s.to_string())
}

fn row(cols: Vec<Col>) -> Row {
    Row { cols }
}

fn single_arg(q: &GetDataIn) -> &SelectArgument {
    match &q.arguments {
        SelectArguments::Single(a) => a,
        SelectArguments::Two { .. } => panic!("expected one condition"),
    }
}

fn values(v: &[ColumnValue]) -> Vec<(String, &Col)> {
    v.iter().map(|c| (c.column_name.clone(), &c.value)).collect()
}

#[test]
fn by_ids_query_lists_ids_in_decimal() {
    let q = by_ids_query("texts", &vec![3, -12, 40]);
    assert_eq!(q.table_name, "texts");
    assert!(q.columns_to_read.is_empty());
    match single_arg(&q) {
        SelectArgument::XInY { x, y } => {
            assert_eq!(x, "id");
            assert_eq!(y, &vec!["3".to_string(), "-12".to_string(), "40".to_string()]);
        }
        _ => panic!("expected an id list"),
    }
    let one = by_id_query("templates", 7);
    match single_arg(&one) {
        SelectArgument::XInY { y, .. } => assert_eq!(y, &vec!["7".to_string()]),
        _ => panic!("expected an id list"),
    }
}

#[test]
fn first_row_of_result() {
    assert!(first_row(vec![]).is_none());
    let r = first_row(vec![row(vec![Col::Integer(1)]), row(vec![Col::Integer(2)])]).unwrap();
    assert_eq!(r.cols, vec![Col::Integer(1)]);
}

#[test]
fn empty_search_reads_everything() {
    let q = search_texts_by_title("");
    assert!(matches!(single_arg(&q), SelectArgument::All));
    assert_eq!(q.table_name, "texts");
}

#[test]
fn search_wraps_the_query_in_wildcards() {
    let q = search_templates_by_title("mail");
    assert_eq!(q.table_name, "templates");
    match single_arg(&q) {
        SelectArgument::XLikeY { x, y } => {
            assert_eq!(x, "title");
            assert_eq!(y, "%mail%");
        }
        _ => panic!("expected a LIKE"),
    }
}

#[test]
fn shortcut_queries_select_the_owner() {
    let q = read_shortcut_query(OWNER_MAIN_NAV, "Templates");
    assert_eq!(q.table_name, "shortcuts");
    assert_eq!(q.columns_to_read, vec!["combo".to_string()]);
    match &q.arguments {
        SelectArguments::Two { first, second, .. } => {
            assert!(matches!(first, SelectArgument::XEqualY { x, y } if x == "owner_kind" && y == "main_nav"));
            assert!(matches!(second, SelectArgument::XEqualY { x, y } if x == "owner_id" && y == "Templates"));
        }
        _ => panic!("expected two conditions"),
    }
    let c = clear_shortcut_query("text", "5");
    assert_eq!(c.columns_to_read, vec!["id".to_string()]);
}

#[test]
fn shortcut_read_back() {
    assert_eq!(shortcut_from_rows(&vec![]), None);
    assert_eq!(shortcut_from_rows(&vec![row(vec![text("ctrl+k")])]), Some("ctrl+k".to_string()));
    assert_eq!(shortcut_from_rows(&vec![row(vec![Col::Null])]), None);
}

#[test]
fn combo_owner_needs_both_columns() {
    let rows = vec![row(vec![text("text"), text("12")])];
    assert_eq!(combo_owner_of(&rows), Some(("text".to_string(), "12".to_string())));
    let rows = vec![row(vec![text("text")])];
    assert_eq!(combo_owner_of(&rows), None);
    assert_eq!(combo_owner_of(&vec![]), None);
}

#[test]
fn deletes_only_rows_with_an_id() {
    let rows = vec![
        row(vec![Col::Integer(4)]),
        row(vec![text("x")]),
        row(vec![Col::Integer(9)]),
    ];
    let d = deletes_for_rows("shortcuts", &rows);
    let ids: Vec<(String, String)> = d.iter().map(|x| (x.table_name.clone(), x.row_id.clone())).collect();
    assert_eq!(
        ids,
        vec![("shortcuts".to_string(), "4".to_string()), ("shortcuts".to_string(), "9".to_string())]
    );
}

#[test]
fn shortcut_row_values() {
    let r = shortcut_row("category", "3", "alt+x");
    assert_eq!(r.table_name, "shortcuts");
    assert_eq!(
        values(&r.values),
        vec![
            ("owner_kind".to_string(), &text("category")),
            ("owner_id".to_string(), &text("3")),
            ("combo".to_string(), &text("alt+x")),
        ]
    );
}

#[test]
fn edits_name_the_row_in_decimal() {
    let e = edit_text_title(42, "New".to_string());
    assert_eq!(e.table_name, "texts");
    assert_eq!(e.row_id, "42");
    assert_eq!(e.column, "title");
    assert_eq!(e.new_value, text("New"));
    let c = edit_category_name(-3, "Mail".to_string());
    assert_eq!(c.row_id, "-3");
    assert_eq!(c.column, "name");
}

#[test]
fn counters_read_and_bump() {
    assert_eq!(counter_value(&vec![]), 0);
    assert_eq!(counter_value(&vec![row(vec![Col::Integer(5)])]), 5);
    assert_eq!(counter_for_display(&vec![row(vec![Col::Integer(-1)])]), u32::MAX);
    let e = bump_edit("texts", 2, 5);
    assert_eq!(e.new_value, Col::Integer(6));
    assert_eq!(e.column, "popularity_ctr");
}

#[test]
fn main_nav_first_click_inserts() {
    match main_nav_bump("Text", &vec![]) {
        MainNavWrite::Insert(r) => {
            assert_eq!(r.table_name, "main_nav_clicks");
            assert_eq!(values(&r.values), vec![("name".to_string(), &text("Text")), ("popularity_ctr".to_string(), &Col::Integer(1))]);
        }
        MainNavWrite::Edit(_) => panic!("expected an insert"),
    }
    match main_nav_bump("Text", &vec![row(vec![Col::Integer(7), Col::Integer(10)])]) {
        MainNavWrite::Edit(e) => {
            assert_eq!(e.row_id, "7");
            assert_eq!(e.new_value, Col::Integer(11));
        }
        MainNavWrite::Insert(_) => panic!("expected an edit"),
    }
}

#[test]
fn paths_are_normalized() {
    assert_eq!(normalize_path("  '~/code/app'  ", Some("/home/z")), "/home/z/code/app");
    assert_eq!(normalize_path("~", Some("/home/z")), "/home/z");
    assert_eq!(normalize_path("\"/opt/x\"", None), "/opt/x");
    assert_eq!(normalize_path("~/a", None), "/a");
    let r = new_row_project("P".to_string(), " ~/p ".to_string(), true, false, Some("/h"));
    assert_eq!(values(&r.values)[1], ("path".to_string(), &text("/h/p")));
    assert_eq!(values(&r.values)[2], ("launch_zed".to_string(), &Col::Integer(1)));
}

#[test]
fn category_names_are_trimmed_before_lookup() {
    assert_eq!(category_to_resolve("  Work "), Some("Work"));
    assert_eq!(category_to_resolve("   "), None);
    assert_eq!(category_col(Some(4)), Col::Integer(4));
    assert_eq!(category_col(None), Col::Null);
    let q = find_category_query("Work", "meta");
    assert_eq!(q.columns_to_read, vec!["id".to_string()]);
}

#[test]
fn error_rows_are_read_newest_first_and_cut() {
    let log = |ts: i64, what: &str| row(vec![Col::Integer(ts), text("s"), text("l"), text(what)]);
    let rows = vec![log(10, "a"), log(30, "b"), log(20, "c"), log(30, "d"), row(vec![])];
    let all: Vec<(i64, String)> = recent_errors(&rows, 10).into_iter().map(|e: ErrorRow| (e.timestamp, e.detail)).collect();
    assert_eq!(
        all,
        vec![
            (30, "b".to_string()),
            (30, "d".to_string()),
            (20, "c".to_string()),
            (10, "a".to_string()),
            (0, String::new()),
        ]
    );
    let two: Vec<String> = recent_errors(&rows, 2).into_iter().map(|e| e.detail).collect();
    assert_eq!(two, vec!["b".to_string(), "d".to_string()]);
    assert!(recent_errors(&rows, 0).is_empty());
}

#[test]
fn error_row_and_query_shape() {
    let r = error_row(99, "projects", "reload", "boom");
    assert_eq!(r.table_name, "error_log");
    assert_eq!(values(&r.values)[0], ("timestamp".to_string(), &Col::Integer(99)));
    assert_eq!(values(&r.values)[3], ("detail".to_string(), &text("boom")));
    let q = recent_errors_query();
    assert_eq!(q.columns_to_read, vec!["timestamp", "screen", "location", "detail"]);
}

#[test]
fn schema_action_decides_from_tables_and_version() {
    let none: Vec<String> = vec!["schema_version".to_string()];
    let with_texts: Vec<String> = vec!["texts".to_string(), "schema_version".to_string()];
    assert_eq!(schema_action(&none, Some(3)), SchemaAction::CreateFromScratch);
    assert_eq!(schema_action(&with_texts, Some(CURRENT_VERSION.to_int())), SchemaAction::UpToDate);
    assert_eq!(schema_action(&with_texts, Some(3)), SchemaAction::Migrate(SchemaVersion::Version3));
    assert_eq!(schema_action(&with_texts, None), SchemaAction::Migrate(SchemaVersion::Version0));
    assert_eq!(schema_action(&with_texts, Some(42)), SchemaAction::Migrate(SchemaVersion::Version0));
    assert_eq!(stored_version(Some(5)), SchemaVersion::Version5);
    assert!(has_table(&with_texts, "texts"));
    assert!(!has_table(&none, "text"));
}

#[test]
fn version_is_edited_or_inserted() {
    match version_write(Some(2), 7) {
        VersionWrite::Edit(e) => {
            assert_eq!(e.row_id, "1");
            assert_eq!(e.new_value, Col::Integer(7));
        }
        VersionWrite::Insert(_) => panic!("expected an edit"),
    }
    match version_write(None, 7) {
        VersionWrite::Insert(r) => assert_eq!(values(&r.values), vec![("version".to_string(), &Col::Integer(7))]),
        VersionWrite::Edit(_) => panic!("expected an insert"),
    }
}

#[test]
fn error_log_order_does_not_depend_on_the_read() {
    let log = |ts: i64, what: &str| row(vec![Col::Integer(ts), text("s"), text("l"), text(what)]);
    let rows = vec![log(5, "x"), log(5, "y"), log(7, "z")];
    let first: Vec<String> = recent_errors(&rows, 3).into_iter().map(|e| e.detail).collect();
    let second: Vec<String> = recent_errors(&rows, 3).into_iter().map(|e| e.detail).collect();
    assert_eq!(first, second);
    assert_eq!(first, vec!["z".to_string(), "x".to_string(), "y".to_string()]);
}
