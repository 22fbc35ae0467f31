use zutil::components::category_picker_popup::{CategoryPickerResult, CategoryPickerState, PickerEvent};
use zutil::components::shortcut_picker::{build_combo, combo_display, PickerInput, ShortcutPickerAction, ShortcutPickerState};
use zutil::error_stuff::{AppError, DbError, ErrorDetail};
use zutil::row_col::{Col, Row};
use zutil::ui_screens::disabled::{error_text, format_log_row, log_key, logs_text, should_log};
use zutil::ui_screens::edit_text::create_text::{confirm_lines, CreateTextAction, CreateTextState};
use zutil::ui_screens::edit_text::{load_rows, matches_search, ListRow, RowKind};
use zutil::ui_screens::final_nav_view_or_edit_modals::edit_single_text::text_save_edits;
use zutil::ui_screens::final_nav_view_or_edit_modals::fill_template::{FillTemplateState, FocusMove, MarkerValues};
use zutil::ui_screens::json::example::{default_example_json, JsonExampleState};
use zutil::ui_screens::json::{collides, collisions, import_buttons, title_checks, JsonAction, JsonMode, JsonState};
use zutil::ui_screens::projects::{load_projects, update_edits, ProjectsAction, ProjectsState};
use zutil::ui_screens::templates::edit_single_category::EditSingleCategoryState;
use zutil::ui_screens::PopupAnswer;
use zutil::helpers::import::ImportMode;
use zutil::parsed::{NewCategory, NewTemplate, NewText, ParsedPayload};

fn text(s: &str) -> Col {
    Col::Text(s.to_string())
}

fn new_text(title: &str) -> NewText {
    NewText {
        title: title.to_string(),
        body: "b".to_string(),
        category: None,
        meta_category: None,
        type_of_text: None,
        copy_instead_of_view: None,
    }
}

fn new_template(title: &str) -> NewTemplate {
    NewTemplate {
        title: title.to_string(),
        content: "c".to_string(),
        instructions: None,
        example: None,
        category: None,
        meta_category: None,
    }
}

#[test]
fn picker_keeps_what_was_picked() {
    let mut p = CategoryPickerState::default();
    assert_eq!(p.handle(PickerEvent::Open), CategoryPickerResult::Nothing);
    assert!(p.show);
    assert_eq!(p.handle(PickerEvent::PickExisting("Mail".to_string())), CategoryPickerResult::Picked("Mail".to_string()));
    assert_eq!(p.current, "Mail");
    assert!(!p.show);
    p.handle(PickerEvent::Open);
    p.handle(PickerEvent::StartNew);
    assert_eq!(p.handle(PickerEvent::ConfirmNew), CategoryPickerResult::Nothing);
    p.new_name = "Work".to_string();
    assert_eq!(p.handle(PickerEvent::ConfirmNew), CategoryPickerResult::Picked("Work".to_string()));
    assert_eq!(p.current, "Work");
    assert!(!p.creating_new);
    assert_eq!(p.handle(PickerEvent::Clear), CategoryPickerResult::Cleared);
    assert_eq!(p.current, "");
    assert_eq!(p.handle(PickerEvent::Clear), CategoryPickerResult::Nothing);
}

#[test]
fn shortcut_picker_frames() {
    let mut s = ShortcutPickerState {
        owner_kind: "main_nav",
        owner_id: "Text".to_string(),
        owner_label: "Text".to_string(),
        combo: None,
        error: Some("already used in this menu".to_string()),
    };
    let none = PickerInput { pressed: None, escape: false, right_click: false, enter: true };
    assert_eq!(s.frame(none), ShortcutPickerAction::Nothing);
    let press = PickerInput { pressed: Some("ctrl+k".to_string()), escape: false, right_click: false, enter: true };
    assert_eq!(
        s.frame(press),
        ShortcutPickerAction::Save { owner_kind: "main_nav", owner_id: "Text".to_string(), combo: "ctrl+k".to_string() }
    );
    assert_eq!(s.error, None);
    let esc = PickerInput { pressed: None, escape: true, right_click: false, enter: true };
    assert_eq!(s.frame(esc), ShortcutPickerAction::Cancel);
}

#[test]
fn combos_are_written_in_fixed_order() {
    assert_eq!(build_combo(true, true, false, true, "K"), "ctrl+shift+cmd+k");
    assert_eq!(build_combo(false, false, true, false, "Num1"), "alt+num1");
    assert_eq!(build_combo(false, false, false, false, "F5"), "f5");
    assert_eq!(combo_display(&None), "[ ... ]");
    assert_eq!(combo_display(&Some("x".to_string())), "[ x ]");
}

#[test]
fn search_is_case_blind() {
    let row = ListRow {
        kind: RowKind::Text,
        id: 1,
        title: "Hello World".to_string(),
        type_of_text: "Note".to_string(),
        category: "".to_string(),
        meta_category: "Ops".to_string(),
    };
    assert!(matches_search(&row, ""));
    assert!(matches_search(&row, "world"));
    assert!(matches_search(&row, "note"));
    assert!(matches_search(&row, "ops"));
    assert!(!matches_search(&row, "World"));
    assert!(!matches_search(&row, "mail"));
}

#[test]
fn list_rows_are_filtered_and_named() {
    let triples = vec![(1, "Mail".to_string(), "normal".to_string())];
    let texts = vec![
        Row { cols: vec![Col::Integer(1), text("Greeting"), text("hi"), Col::Integer(1), Col::Null, text("note")] },
        Row { cols: vec![Col::Integer(2), text("Other"), text("x")] },
    ];
    let templates = vec![Row { cols: vec![Col::Integer(5), text("Letter"), text("c"), Col::Null, Col::Null, Col::Integer(1)] }];
    let all = load_rows(&texts, &templates, &triples, "  ").unwrap();
    assert_eq!(all.len(), 3);
    assert_eq!(all[0].category, "Mail");
    assert_eq!(all[0].type_of_text, "note");
    assert_eq!(all[2].kind, RowKind::Template);
    assert_eq!(all[2].category, "Mail");
    assert_eq!(all[2].type_of_text, "");
    let mail = load_rows(&texts, &templates, &triples, " MAIL ").unwrap();
    assert_eq!(mail.iter().map(|r| r.id).collect::<Vec<i64>>(), vec![1, 5]);
    let bad = vec![Row { cols: vec![text("x"), text("t")] }];
    assert_eq!(load_rows(&bad, &templates, &triples, "").unwrap_err(), "expected an integer id in the first column");
    let bad_title = vec![Row { cols: vec![Col::Integer(3), Col::Null] }];
    assert_eq!(load_rows(&texts, &bad_title, &triples, "").unwrap_err(), "expected a text title in the second column");
}

#[test]
fn create_text_confirms_before_creating() {
    let mut s = CreateTextState::default();
    s.title = "T".to_string();
    s.on_create_clicked();
    assert!(s.show_confirm);
    assert_eq!(s.on_confirm_answer(PopupAnswer::Pending), CreateTextAction::Nothing);
    assert!(s.show_confirm);
    assert_eq!(s.on_confirm_answer(PopupAnswer::Confirm), CreateTextAction::Create);
    assert!(!s.show_confirm);
    s.on_create_clicked();
    assert_eq!(s.on_confirm_answer(PopupAnswer::Cancel), CreateTextAction::Nothing);
    assert!(!s.show_confirm);
    s.category_picker.current = "Mail".to_string();
    assert_eq!(confirm_lines(&s), vec!["title: T".to_string(), "body: ".to_string(), "category: Mail".to_string()]);
}

#[test]
fn marker_values_follow_markers() {
    let mut f = FillTemplateState::default();
    let mut v = MarkerValues::new();
    v.set("name".to_string(), "Ann".to_string());
    v.set("old".to_string(), "x".to_string());
    v.set("name".to_string(), "Bo".to_string());
    f.values = v;
    f.focused_index = Some(1);
    f.reset_values_for_markers(&vec!["name".to_string(), "city".to_string(), "name".to_string()]);
    assert_eq!(f.values.get("name"), Some("Bo".to_string()));
    assert_eq!(f.values.get("city"), Some(String::new()));
    assert_eq!(f.values.get("old"), None);
    assert_eq!(f.focused_index, None);
}

#[test]
fn focus_wraps_around() {
    let mut f = FillTemplateState::default();
    f.move_focus(3, FocusMove::Stay);
    assert_eq!((f.focused_index, f.pending_focus), (Some(0), Some(0)));
    f.move_focus(3, FocusMove::Up);
    assert_eq!(f.focused_index, Some(2));
    f.move_focus(3, FocusMove::Down);
    assert_eq!(f.focused_index, Some(0));
    f.focused_index = Some(7);
    f.move_focus(3, FocusMove::Down);
    assert_eq!(f.focused_index, Some(2));
    assert!(f.take_pending_focus(2));
    assert!(!f.take_pending_focus(2));
    f.move_focus(0, FocusMove::Down);
    assert_eq!(f.focused_index, Some(2));
}

#[test]
fn saving_a_text_writes_six_columns() {
    let e = text_save_edits(3, "T".to_string(), "B".to_string(), String::new(), Col::Integer(2), Col::Null, Some(true));
    let cols: Vec<(&str, &Col)> = e.iter().map(|x| (x.column.as_str(), &x.new_value)).collect();
    assert_eq!(
        cols,
        vec![
            ("title", &text("T")),
            ("body", &text("B")),
            ("type_of_text", &Col::Null),
            ("category_id", &Col::Integer(2)),
            ("meta_category_id", &Col::Null),
            ("copy_instead_of_view", &Col::Integer(1)),
        ]
    );
    assert!(e.iter().all(|x| x.table_name == "texts" && x.row_id == "3"));
}

#[test]
fn category_can_be_saved_when_changed_and_not_blank() {
    let s = EditSingleCategoryState { id: 1, name: "  ".to_string(), original_name: "A".to_string() };
    assert!(!s.can_save());
    let s = EditSingleCategoryState { id: 1, name: "A".to_string(), original_name: "A".to_string() };
    assert!(!s.can_save());
    let s = EditSingleCategoryState { id: 1, name: "B".to_string(), original_name: "A".to_string() };
    assert!(s.can_save());
}

#[test]
fn projects_dialog_confirms_only_when_filled() {
    let mut s = ProjectsState::default();
    s.open_new();
    s.form_title = "App".to_string();
    assert_eq!(s.on_confirm(), ProjectsAction::Nothing);
    assert!(s.show_modal);
    s.form_path = "~/app".to_string();
    assert_eq!(
        s.on_confirm(),
        ProjectsAction::Create { title: "App".to_string(), path: "~/app".to_string(), launch_zed: false, launch_adstud: false }
    );
    assert!(!s.show_modal);
    let rows = vec![Row { cols: vec![Col::Integer(4), text("App"), text("/a"), Col::Integer(1)] }];
    s.rows = load_projects(&rows).unwrap();
    assert!(s.rows[0].launch_zed && !s.rows[0].launch_adstud);
    assert!(s.open_edit_by_id(4));
    assert!(!s.open_edit_by_id(5));
    match s.on_confirm() {
        ProjectsAction::Update { id, path, launch_zed, .. } => {
            assert_eq!((id, path.as_str(), launch_zed), (4, "/a", true));
        }
        other => panic!("unexpected {:?}", other),
    }
    let bad = vec![Row { cols: vec![Col::Integer(4), text("App"), Col::Null] }];
    assert_eq!(load_projects(&bad).unwrap_err(), "expected a text path in the third column");
}

#[test]
fn project_update_normalizes_path() {
    let e = update_edits(2, "P".to_string(), "'~/x'", false, true, Some("/home/u"));
    let cols: Vec<(&str, &Col)> = e.iter().map(|x| (x.column.as_str(), &x.new_value)).collect();
    assert_eq!(
        cols,
        vec![("title", &text("P")), ("path", &text("/home/u/x")), ("launch_zed", &Col::Integer(0)), ("launch_adstud", &Col::Integer(1))]
    );
}

#[test]
fn json_modes() {
    assert!(JsonMode::Import.has_do_button() && JsonMode::Export.has_prompt());
    assert!(!JsonMode::Validate.has_do_button() && !JsonMode::Validate.has_prompt());
    assert_eq!(JsonMode::Export.do_label(), "Export");
    assert_eq!(JsonMode::Validate.do_label(), "");
}

#[test]
fn json_collisions_and_answers() {
    let payloads = vec![
        ParsedPayload::NewTexts(vec![new_text("a"), new_text("b")]),
        ParsedPayload::NewCategories(vec![NewCategory { name: "c".to_string(), type_of_category: "normal".to_string() }]),
        ParsedPayload::NewTemplates(vec![new_template("t")]),
    ];
    let checks = title_checks(&payloads);
    let pairs: Vec<(&str, &str)> = checks.iter().map(|c| (c.table, c.title.as_str())).collect();
    assert_eq!(pairs, vec![("texts", "a"), ("texts", "b"), ("templates", "t")]);
    let keys = collisions(&checks, &vec![false, true, true]);
    assert_eq!(keys, vec!["text:b".to_string(), "template:t".to_string()]);
    assert!(collides(&keys, "texts", "b"));
    assert!(!collides(&keys, "templates", "b"));
    assert_eq!(import_buttons(true).len(), 3);
    assert_eq!(import_buttons(false)[0], ("Confirm", PopupAnswer::Confirm));

    let mut s = JsonState::default();
    s.on_parsed(payloads, keys);
    assert!(matches!(s.on_import_answer(PopupAnswer::Pending), JsonAction::Nothing));
    assert!(s.popup_payloads.is_some());
    match s.on_import_answer(PopupAnswer::Replace) {
        JsonAction::ImportConfirmed(p, m) => {
            assert_eq!(p.len(), 3);
            assert_eq!(m, ImportMode::Replace);
        }
        _ => panic!("expected an import"),
    }
    assert!(s.popup_payloads.is_none() && s.popup_collisions.is_empty());
    s.on_parse_error("bad json".to_string());
    assert_eq!(s.popup_error, Some("bad json".to_string()));
    s.on_error_closed();
    assert_eq!(s.popup_error, None);
}

#[test]
fn json_example_starts_with_two_texts() {
    let s = default_example_json();
    assert!(s.starts_with("[\n  {\n    \"parsing_instruct\": \"new_texts\""));
    assert!(s.contains("\"title\": \"second title\""));
    let mut e = JsonExampleState::default();
    e.on_parse(Err("eof".to_string()));
    assert_eq!(e.error, Some("eof".to_string()));
    e.reset();
    assert_eq!(e.error, None);
}

#[test]
fn disabled_screen_texts() {
    let err = AppError {
        detail: ErrorDetail::Db(DbError::Database("locked".to_string())),
        screen: "projects".to_string(),
        location: "reload".to_string(),
    };
    assert_eq!(error_text(&err), "screen: projects\nlocation: reload\ndb error: locked\n");
    assert_eq!(log_key(&err), "projects::reload::db: locked");
    assert!(should_log(&None, "k"));
    assert!(!should_log(&Some("k".to_string()), "k"));
    let row = Row { cols: vec![Col::Integer(1), Col::Null, text("warn"), text("db"), Col::Null, Col::Null, text("slow")] };
    assert_eq!(format_log_row(&row), "[warn] db: slow");
    assert_eq!(format_log_row(&Row { cols: vec![] }), "[?] ?: ?");
    assert_eq!(logs_text(&vec![]), "");
    assert_eq!(logs_text(&vec!["a".to_string(), "b".to_string()]), "\nRecent logs:\na\nb\n");
}
