use zutil::ui_screens::pages::{page_step, Page, PageEvent};
use zutil::overlays::{overlay_after_save, try_close_innermost_overlay, EditorOverlay};
use zutil::row_col::Col;
use zutil::ui_screens::edit_text::create_text::{CreateTextAction, CreateTextState};
use zutil::ui_screens::edit_text::view_text::ViewTextState;
use zutil::ui_screens::projects::{projects_action_step, ProjectsAction, ProjectsCommand, ProjectsState};
use zutil::ui_screens::templates::create_template::{CreateTemplateAction, CreateTemplateState};
use zutil::ui_screens::PopupAnswer;

fn filled_projects() -> ProjectsState {
    let mut p = ProjectsState::default();
    p.open_new();
    p.form_title = "zutil".to_string();
    p.form_path = "~/code/zutil".to_string();
    p.form_launch_zed = true;
    p
}

#[test]
fn closing_the_projects_dialog_keeps_the_form() {
    let mut overlay = Some(EditorOverlay::Projects);
    let mut open_template = None;
    let mut p = filled_projects();
    assert!(try_close_innermost_overlay(&mut overlay, &mut open_template, &mut p));
    assert!(!p.show_modal);
    assert_eq!(p.form_title, "zutil");
    assert_eq!(p.form_path, "~/code/zutil");
    assert!(p.form_launch_zed);
    assert!(matches!(overlay, Some(EditorOverlay::Projects)));
    // the next right click closes the projects editor itself
    assert!(try_close_innermost_overlay(&mut overlay, &mut open_template, &mut p));
    assert!(overlay.is_none());
    assert_eq!(p.form_title, "zutil");
    assert!(!try_close_innermost_overlay(&mut overlay, &mut open_template, &mut p));
}

#[test]
fn closing_another_editor_leaves_projects_alone() {
    let mut overlay = Some(EditorOverlay::ViewText(ViewTextState { title: "t".to_string(), body: "b".to_string() }));
    let mut open_template = None;
    let mut p = filled_projects();
    assert!(try_close_innermost_overlay(&mut overlay, &mut open_template, &mut p));
    assert!(overlay.is_none());
    assert!(p.show_modal);
    assert_eq!(p.form_title, "zutil");
}

#[test]
fn failed_save_keeps_the_editor_open() {
    let kept = overlay_after_save(Some(EditorOverlay::ViewText(ViewTextState { title: "t".to_string(), body: "b".to_string() })), false);
    match kept {
        Some(EditorOverlay::ViewText(v)) => assert_eq!(v.title, "t"),
        _ => panic!("editor should stay open"),
    }
    assert!(overlay_after_save(Some(EditorOverlay::Projects), true).is_none());
}

#[test]
fn template_form_survives_the_confirm_dialog() {
    let mut s = CreateTemplateState::default();
    s.title = "T".to_string();
    s.instructions = "I".to_string();
    s.example = "E".to_string();
    s.category_picker.current = "Mail".to_string();
    s.meta_category_picker.current = "Work".to_string();
    s.on_create_clicked();
    assert!(s.show_confirm);
    assert_eq!(s.on_confirm_answer(PopupAnswer::Confirm), CreateTemplateAction::Create);
    assert!(!s.show_confirm);
    assert_eq!(s.instructions, "I");
    assert_eq!(s.example, "E");
    assert_eq!(s.category_picker.current, "Mail");
    assert_eq!(s.meta_category_picker.current, "Work");
    s.on_create_clicked();
    assert_eq!(s.on_confirm_answer(PopupAnswer::Cancel), CreateTemplateAction::Nothing);
    assert_eq!(s.instructions, "I");
    assert_eq!(s.category_picker.current, "Mail");
}

#[test]
fn text_form_pickers_survive_the_confirm_dialog() {
    let mut s = CreateTextState::default();
    s.category_picker.current = "Mail".to_string();
    s.meta_category_picker.current = "Work".to_string();
    s.on_create_clicked();
    assert_eq!(s.on_confirm_answer(PopupAnswer::Cancel), CreateTextAction::Nothing);
    assert_eq!(s.category_picker.current, "Mail");
    assert_eq!(s.meta_category_picker.current, "Work");
}

#[test]
fn projects_actions_become_commands() {
    assert!(matches!(projects_action_step(ProjectsAction::Back, None), ProjectsCommand::Close));
    assert!(matches!(projects_action_step(ProjectsAction::Nothing, None), ProjectsCommand::Nothing));
    match projects_action_step(
        ProjectsAction::Create { title: "z".to_string(), path: "~/z".to_string(), launch_zed: true, launch_adstud: false },
        Some("/home/u"),
    ) {
        ProjectsCommand::Insert(row) => {
            assert_eq!(row.table_name, "projects");
            assert_eq!(row.values.len(), 4);
            assert_eq!(row.values[1].column_name, "path");
            assert_eq!(row.values[1].value, Col::Text("/home/u/z".to_string()));
            assert_eq!(row.values[2].value, Col::Integer(1));
            assert_eq!(row.values[3].value, Col::Integer(0));
        }
        _ => panic!("create should insert"),
    }
    match projects_action_step(
        ProjectsAction::Update { id: 7, title: "z".to_string(), path: "/p".to_string(), launch_zed: false, launch_adstud: true },
        None,
    ) {
        ProjectsCommand::Edits(e) => {
            assert_eq!(e.len(), 4);
            assert_eq!(e[0].row_id, "7");
            assert_eq!(e[3].column, "launch_adstud");
        }
        _ => panic!("update should edit"),
    }
    match projects_action_step(ProjectsAction::Delete(42), None) {
        ProjectsCommand::Delete(d) => {
            assert_eq!(d.table_name, "projects");
            assert_eq!(d.row_id, "42");
        }
        _ => panic!("delete should delete"),
    }
    match projects_action_step(ProjectsAction::LaunchZed { path: "/p".to_string() }, None) {
        ProjectsCommand::Launch(l, loc) => {
            assert_eq!(l.program, "bash");
            assert_eq!(l.args, vec!["-ic", "zed ."]);
            assert_eq!(l.folder, "/p");
            assert!(l.quiet);
            assert_eq!(loc, "launch_zed");
        }
        _ => panic!("launch zed should launch"),
    }
    match projects_action_step(ProjectsAction::OpenTerminal { path: "/p".to_string() }, None) {
        ProjectsCommand::Launch(l, loc) => {
            assert_eq!(l.program, "x-terminal-emulator");
            assert!(!l.quiet);
            assert_eq!(loc, "open_terminal");
        }
        _ => panic!("terminal should launch"),
    }
}

#[test]
fn pages_follow_their_events() {
    let (p, c) = page_step(Page::CreateTemplate, PageEvent::Back);
    assert_eq!(p, Page::EditText);
    assert!(c.reload_list && !c.reset_create_template);
    let (p, c) = page_step(Page::CreateTemplate, PageEvent::Finished);
    assert_eq!(p, Page::EditText);
    assert!(c.reload_list && c.reset_create_template);
    let (p, c) = page_step(Page::CreateText, PageEvent::Finished);
    assert_eq!(p, Page::CreateText);
    assert!(c.reset_create_text && !c.reload_list);
    let (p, _) = page_step(Page::JsonExample, PageEvent::Back);
    assert_eq!(p, Page::Json);
    let (p, c) = page_step(Page::EditText, PageEvent::StartNew(Page::CreateText));
    assert_eq!(p, Page::CreateText);
    assert!(c.reset_create_text);
    let (p, c) = page_step(Page::CircleMenu, PageEvent::Open(Page::CreateText));
    assert_eq!(p, Page::CreateText);
    assert!(!c.reset_create_text);
    let (p, c) = page_step(Page::Json, PageEvent::Open(Page::Projects));
    assert_eq!(p, Page::Projects);
    assert!(c.reload_projects);
    let (p, _) = page_step(Page::FillTemplate, PageEvent::Dismissed);
    assert_eq!(p, Page::CircleMenu);
    let (p, _) = page_step(Page::EditText, PageEvent::Back);
    assert_eq!(p, Page::CircleMenu);
}
