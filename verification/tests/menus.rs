use std::collections::HashMap;
use zutil::globals::{
    combo_taken, current_items, current_labels, depth, find_combo, init_menu, pop_menu, pop_to_root,
    push_menu, stack_kinds, ItemKind, MenuItem, MenuStack, RebuildKind,
};
use zutil::menu::{
    category_entries, counter_target, leaf_entries_for, menu_item, root_entries, CategoryCircle,
    CounterTarget, LeafCircle, MenuEntry,
};
use zutil::overlays::{descent_next, find_popup_binary, popup_candidates, right_click_target, RightClickTarget};
use zutil::row_col::{Col, Row};

fn text(s: &str) -> Col {
    Col::Text(s.to_string())
}

fn item(label: &str, shortcut: Option<&str>) -> MenuItem {
    MenuItem {
        label: label.to_string(),
        kind: ItemKind::Nothing,
        counter: 0,
        shortcut: shortcut.map(|s| s.to_string()),
        owner: ("text", label.to_string()),
    }
}

/// id, title, body, category, meta, type, copy flag
fn text_row(id: i64, title: &str, cat: Option<i64>, ty: Option<&str>, copy: bool) -> Row {
    Row {
        cols: vec![
            Col::Integer(id),
            text(title),
            text("body"),
            cat.map(Col::Integer).unwrap_or(Col::Null),
            Col::Null,
            ty.map(text).unwrap_or(Col::Null),
            Col::Integer(if copy { 1 } else { 0 }),
        ],
    }
}

fn labels(v: &[MenuEntry]) -> Vec<String> {
    v.iter().map(|e| e.label.clone()).collect()
}

#[test]
fn root_circle_has_the_five_entries() {
    let v = root_entries();
    assert_eq!(labels(&v), vec!["Templates", "AI Prompts", "Text", "Terminal Commands", "Projects"]);
    assert_eq!(v[0].kind, ItemKind::PushTemplatesCategories);
    assert_eq!(v[3].kind, ItemKind::PushTerminalCategories);
    assert_eq!(v[4].owner, ("main_nav", "Projects".to_string()));
}

#[test]
fn text_categories_are_listed_once_in_first_order() {
    let names: HashMap<i64, String> =
        [(1, "Mail".to_string()), (2, "Shell".to_string())].into_iter().collect();
    let rows = vec![
        text_row(10, "a", Some(2), Some("terminal command"), false),
        text_row(11, "b", Some(1), None, false),
        text_row(12, "c", Some(2), Some("note"), false),
        text_row(13, "d", Some(1), Some("prompt"), false),
        text_row(14, "e", Some(9), None, false),
    ];
    let texts = category_entries(&rows, &names, CategoryCircle::Texts);
    assert_eq!(labels(&texts), vec!["Shell", "Mail"]);
    assert_eq!(texts[0].kind, ItemKind::PushTextsInCategory(2));
    assert_eq!(texts[1].owner, ("category", "1".to_string()));
    let terms = category_entries(&rows, &names, CategoryCircle::TerminalCommands);
    assert_eq!(labels(&terms), vec!["Shell"]);
    assert_eq!(terms[0].kind, ItemKind::PushTerminalsInCategory(2));
}

#[test]
fn leaves_choose_copy_or_view() {
    let rows = vec![
        text_row(10, "view me", Some(1), None, false),
        text_row(11, "copy me", Some(1), Some("snippet"), true),
        text_row(12, "other", Some(2), None, false),
        text_row(13, "ask", Some(1), Some("prompt"), false),
    ];
    let v = leaf_entries_for(&rows, LeafCircle::TextsIn(1));
    assert_eq!(labels(&v), vec!["view me", "copy me"]);
    assert_eq!(v[0].kind, ItemKind::ViewText(10));
    assert_eq!(v[1].kind, ItemKind::CopyPrompt(11));
    assert_eq!(v[1].owner, ("text", "11".to_string()));
    let p = leaf_entries_for(&rows, LeafCircle::Prompts);
    assert_eq!(labels(&p), vec!["ask"]);
    assert_eq!(p[0].kind, ItemKind::CopyPrompt(13));
}

#[test]
fn templates_of_a_category() {
    let t = Row { cols: vec![Col::Integer(5), text("Letter"), text("c"), Col::Null, Col::Null, Col::Integer(3)] };
    let v = leaf_entries_for(&vec![t], LeafCircle::TemplatesIn(3));
    assert_eq!(v[0].kind, ItemKind::OpenTemplate(5));
    assert_eq!(v[0].owner, ("template", "5".to_string()));
}

#[test]
fn counters_follow_the_item_kind() {
    let mut it = item("Text", None);
    it.kind = ItemKind::PushTextCategories;
    assert_eq!(counter_target(&it), CounterTarget::MainNav("Text".to_string()));
    it.kind = ItemKind::PushTerminalsInCategory(4);
    assert_eq!(counter_target(&it), CounterTarget::Category(4));
    it.kind = ItemKind::ViewText(8);
    assert_eq!(counter_target(&it), CounterTarget::Text(8));
    it.kind = ItemKind::EditProject(2);
    assert_eq!(counter_target(&it), CounterTarget::Project(2));
    it.kind = ItemKind::NewPlus;
    assert_eq!(counter_target(&it), CounterTarget::Untracked);
}

#[test]
fn menu_stack_push_pop_and_root() {
    let mut s = MenuStack::new();
    init_menu(&mut s, vec![item("root", None)]);
    push_menu(&mut s, RebuildKind::Prompts, vec![item("a", None), item("b", None)]);
    assert_eq!(depth(&s), 2);
    assert_eq!(current_labels(&s), vec!["a".to_string(), "b".to_string()]);
    assert!(pop_menu(&mut s));
    assert!(!pop_menu(&mut s));
    assert_eq!(depth(&s), 1);
    push_menu(&mut s, RebuildKind::TextCategories, vec![]);
    push_menu(&mut s, RebuildKind::TextsInCategory(3), vec![item("t", None)]);
    assert_eq!(stack_kinds(&s), vec![RebuildKind::Root, RebuildKind::TextCategories, RebuildKind::TextsInCategory(3)]);
    pop_to_root(&mut s);
    assert_eq!(current_items(&s).len(), 1);
    assert_eq!(current_labels(&s), vec!["root".to_string()]);
}

#[test]
fn combos_are_unique_in_a_circle() {
    let items = vec![item("a", Some("x")), item("b", Some("y"))];
    assert!(combo_taken(&items, "text", "b", "x"));
    assert!(!combo_taken(&items, "text", "a", "x"));
    assert_eq!(find_combo(&items, "y"), Some(1));
    assert_eq!(find_combo(&items, "z"), None);
}

#[test]
fn descent_follows_the_combo() {
    let items = vec![item("a", Some("q")), item("b", Some("x"))];
    assert_eq!(descent_next(1, 2, false, &items, "x"), Some(1));
    assert_eq!(descent_next(2, 2, false, &items, "x"), None);
    assert_eq!(descent_next(1, 2, true, &items, "x"), None);
    assert_eq!(descent_next(1, 2, false, &items, "z"), None);
}

#[test]
fn right_click_opens_the_matching_editor() {
    assert_eq!(right_click_target(ItemKind::OpenTemplate(3)), RightClickTarget::EditTemplate(3));
    assert_eq!(right_click_target(ItemKind::PushTemplatesInCategory(4)), RightClickTarget::EditCategory(4));
    assert_eq!(right_click_target(ItemKind::ViewText(5)), RightClickTarget::EditText(5));
    assert_eq!(right_click_target(ItemKind::OpenProjectTerminal(6)), RightClickTarget::EditProject(6));
    assert_eq!(right_click_target(ItemKind::PushProjects), RightClickTarget::Nothing);
}

#[test]
fn menu_item_keeps_entry() {
    let e = MenuEntry { label: "L".to_string(), kind: ItemKind::NewPlus, owner: ("text", "1".to_string()) };
    let m = menu_item(e, 4, Some("k".to_string()));
    assert_eq!(m.label, "L");
    assert_eq!(m.counter, 4);
    assert_eq!(m.shortcut, Some("k".to_string()));
}

#[test]
fn popup_binary_is_the_first_that_exists() {
    let c = popup_candidates(Some("/src/zutil"));
    assert_eq!(c, vec![
        "/usr/bin/zutil_popup".to_string(),
        "/src/zutil/target/debug/zutil_popup".to_string(),
        "/src/zutil/target/release/zutil_popup".to_string(),
    ]);
    assert_eq!(find_popup_binary(&c, &vec![false, false, true]), "/src/zutil/target/release/zutil_popup");
    assert_eq!(find_popup_binary(&c, &vec![false, false, false]), "zutil_popup");
}
