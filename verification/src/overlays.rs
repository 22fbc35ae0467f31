use vstd::prelude::*;
use crate::globals::{ItemKind, MenuItem, has_shortcut};
use crate::menu::{CounterSpec, LeafCircle, counter_target_spec, leaf_entries, lemma_leaf_from_row, row_id};
use crate::row_col::ColSpec;
use crate::ui_screens::edit_text::view_text::ViewTextState;
use crate::ui_screens::final_nav_view_or_edit_modals::edit_single_template::EditSingleTemplateState;
use crate::ui_screens::final_nav_view_or_edit_modals::edit_single_text::EditSingleTextState;
use crate::ui_screens::final_nav_view_or_edit_modals::fill_template::FillTemplateState;
use crate::ui_screens::projects::ProjectsState;
use crate::ui_screens::templates::edit_single_category::EditSingleCategoryState;

verus! {

/// The editor drawn over the circle menu, if any.
pub enum EditorOverlay {
    Template(EditSingleTemplateState),
    Category(EditSingleCategoryState),
    Text(EditSingleTextState),
    ViewText(ViewTextState),
    Projects,
    NewPlus,
}

/// What a right click closes first: the dialog of the projects editor, then
/// the template being filled, then the editor; the result tells whether
/// anything was closed.
pub fn try_close_innermost_overlay(
    editor_overlay: &mut Option<EditorOverlay>,
    open_template: &mut Option<FillTemplateState>,
    projects: &mut ProjectsState,
) -> (closed: bool)
    ensures
        (*old(editor_overlay) matches Some(EditorOverlay::Projects) && old(projects).show_modal) ==> closed
            && *final(projects) == (ProjectsState { show_modal: false, ..*old(projects) })
            && *final(editor_overlay) == *old(editor_overlay) && *final(open_template) == *old(open_template),
        !(*old(editor_overlay) matches Some(EditorOverlay::Projects) && old(projects).show_modal) && *old(open_template) is Some ==> closed && *final(open_template) is None && *final(editor_overlay) == *old(editor_overlay) && *final(projects) == *old(projects),
        !(*old(editor_overlay) matches Some(EditorOverlay::Projects) && old(projects).show_modal) && *old(open_template) is None && *old(editor_overlay) is Some ==> closed && *final(editor_overlay) is None && *final(open_template) is None && *final(projects) == *old(projects),
        *old(editor_overlay) is None && *old(open_template) is None ==> !closed && *final(editor_overlay) is None && *final(open_template) is None && *final(projects) == *old(projects),
        final(projects).rows == old(projects).rows,
        final(projects).editing_id == old(projects).editing_id,
{
    let projects_dialog = match editor_overlay {
        Some(EditorOverlay::Projects) => projects.show_modal,
        _ => false,
    };
    if projects_dialog {
        projects.show_modal = false;
        return true;
    }
    if open_template.is_some() {
        *open_template = None;
        return true;
    }
    if editor_overlay.is_some() {
        *editor_overlay = None;
        return true;
    }
    false
}

/// After the editor asked to save: a stored edit closes the editor, a failed
/// one leaves it open as it was, so that nothing typed is lost.
pub fn overlay_after_save(overlay: Option<EditorOverlay>, saved: bool) -> (r: Option<EditorOverlay>)
    ensures
        !saved ==> r == overlay,
        saved ==> r is None,
{
    if saved {
        None
    } else {
        overlay
    }
}

/// The editor that a right click on an item opens.
#[derive(Clone, Copy, PartialEq, Eq, Structural, Debug)]
pub enum RightClickTarget {
    EditTemplate(i64),
    EditCategory(i64),
    EditText(i64),
    EditProject(i64),
    Nothing,
}

/// A template opens its editor, a category of templates its name editor,
/// any text its editor, and a project the projects editor; other items
/// have none.
pub open spec fn right_click_target_spec(kind: ItemKind) -> RightClickTarget {
    match kind {
        ItemKind::OpenTemplate(t) => RightClickTarget::EditTemplate(t),
        ItemKind::PushTemplatesInCategory(c) => RightClickTarget::EditCategory(c),
        ItemKind::CopyPrompt(t) | ItemKind::OpenTextEditor(t) | ItemKind::ViewText(t) =>
            RightClickTarget::EditText(t),
        ItemKind::OpenProjectTerminal(id) => RightClickTarget::EditProject(id),
        _ => RightClickTarget::Nothing,
    }
}

pub fn right_click_target(kind: ItemKind) -> (t: RightClickTarget)
    ensures
        t == right_click_target_spec(kind),
{
    match kind {
        ItemKind::OpenTemplate(t) => RightClickTarget::EditTemplate(t),
        ItemKind::PushTemplatesInCategory(c) => RightClickTarget::EditCategory(c),
        ItemKind::CopyPrompt(t) | ItemKind::OpenTextEditor(t) | ItemKind::ViewText(t) =>
            RightClickTarget::EditText(t),
        ItemKind::OpenProjectTerminal(id) => RightClickTarget::EditProject(id),
        _ => RightClickTarget::Nothing,
    }
}

/// A right click opens the editor of the stored thing an item stands for:
/// a text copied, viewed or edited opens that text, a template that
/// template, a circle of templates of a category that category's name, and a
/// project that project.
pub proof fn law_right_click_edits_what_the_item_stands_for(t: i64)
    ensures
        right_click_target_spec(ItemKind::CopyPrompt(t)) == RightClickTarget::EditText(t),
        right_click_target_spec(ItemKind::ViewText(t)) == RightClickTarget::EditText(t),
        right_click_target_spec(ItemKind::OpenTextEditor(t)) == RightClickTarget::EditText(t),
        right_click_target_spec(ItemKind::OpenTemplate(t)) == RightClickTarget::EditTemplate(t),
        right_click_target_spec(ItemKind::PushTemplatesInCategory(t))
            == RightClickTarget::EditCategory(t),
        right_click_target_spec(ItemKind::OpenProjectTerminal(t)) == RightClickTarget::EditProject(t),
{
}

/// The text or template whose counter choosing an item raises is the one a
/// right click on it edits.
pub proof fn law_right_click_edits_what_choosing_counts(kind: ItemKind, label: Seq<char>, t: i64)
    ensures
        counter_target_spec(kind, label) == CounterSpec::Text(t) ==> right_click_target_spec(kind)
            == RightClickTarget::EditText(t),
        counter_target_spec(kind, label) == CounterSpec::Template(t) ==> right_click_target_spec(
            kind,
        ) == RightClickTarget::EditTemplate(t),
{
}

/// A right click on any leaf edits the row the leaf was read from: a template
/// leaf that template, any other leaf that text.
pub proof fn law_right_click_on_a_leaf_edits_its_row(circle: LeafCircle, rows: Seq<Seq<ColSpec>>)
    ensures
        forall|i: int|
            #![trigger leaf_entries(circle, rows)[i]]
            0 <= i < leaf_entries(circle, rows).len() ==> exists|j: int|
                #![trigger rows[j]]
                0 <= j < rows.len() && (if circle is TemplatesIn {
                    right_click_target_spec(leaf_entries(circle, rows)[i].kind)
                        == RightClickTarget::EditTemplate(row_id(rows[j]) as i64)
                } else {
                    right_click_target_spec(leaf_entries(circle, rows)[i].kind)
                        == RightClickTarget::EditText(row_id(rows[j]) as i64)
                }),
{
    lemma_leaf_from_row(circle, rows);
}

/// Whether a dialog or editor covers the circle menu.
pub fn modal_is_open(
    editor_overlay: &Option<EditorOverlay>,
    open_template: &Option<FillTemplateState>,
    picker_open: bool,
) -> (b: bool)
    ensures
        b == (open_template is Some || editor_overlay is Some || picker_open),
{
    open_template.is_some() || editor_overlay.is_some() || picker_open
}

/// The largest number of circles one held-down combo descends through.
pub const MAX_DESCENT: usize = 16;

/// After an item fired while descending with a combo: the item of the new
/// circle to fire next, if the descent goes on. It stops when a dialog
/// opened, when the item did not open a deeper circle, or when the new
/// circle has no item with the combo.
pub fn descent_next(
    depth_before: usize,
    depth_after: usize,
    modal_opened: bool,
    items_now: &Vec<MenuItem>,
    combo: &str,
) -> (r: Option<usize>)
    ensures
        (modal_opened || depth_after <= depth_before) ==> r is None,
        !(modal_opened || depth_after <= depth_before) ==> match r {
            Some(i) => i < items_now@.len() && has_shortcut(items_now@[i as int], combo@) && forall|j: int| 0 <= j < i ==> !has_shortcut(#[trigger] items_now@[j], combo@),
            None => forall|j: int| 0 <= j < items_now@.len() ==> !has_shortcut(#[trigger] items_now@[j], combo@),
        },
{
    if modal_opened || depth_after <= depth_before {
        return None;
    }
    crate::globals::find_combo(items_now, combo)
}

/// What a button of the "New +" overlay opens.
#[derive(Clone, Copy, PartialEq, Eq, Structural, Debug)]
pub enum NewPlusChoice {
    CreateText,
    CreateTemplate,
    NewProject,
    Nothing,
}

/// The buttons are "New Text", "New Template" and "New Project", in that order.
pub fn new_plus_choice(index: usize) -> (c: NewPlusChoice)
    ensures
        index == 0 ==> c == NewPlusChoice::CreateText,
        index == 1 ==> c == NewPlusChoice::CreateTemplate,
        index == 2 ==> c == NewPlusChoice::NewProject,
        index > 2 ==> c == NewPlusChoice::Nothing,
{
    if index == 0 {
        NewPlusChoice::CreateText
    } else if index == 1 {
        NewPlusChoice::CreateTemplate
    } else if index == 2 {
        NewPlusChoice::NewProject
    } else {
        NewPlusChoice::Nothing
    }
}

/// Where the helper that shows short notices is looked for, in order: the
/// installed binary, then the debug and release builds next to the sources
/// (when their folder is known).
pub open spec fn popup_candidates_spec(root: Option<Seq<char>>) -> Seq<Seq<char>> {
    match root {
        Some(r) => seq![
            "/usr/bin/zutil_popup"@,
            r + "/target/debug/zutil_popup"@,
            r + "/target/release/zutil_popup"@,
        ],
        None => seq!["/usr/bin/zutil_popup"@],
    }
}

pub fn popup_candidates(root: Option<&str>) -> (v: Vec<String>)
    ensures
        v@.map_values(|s: String| s@) == popup_candidates_spec(match root {
            Some(r) => Some(r@),
            None => None,
        }),
{
    let mut v: Vec<String> = Vec::new();
    v.push("/usr/bin/zutil_popup".to_string());
    match root {
        Some(r) => {
            v.push(crate::text::concat3(r, "/target/debug/zutil_popup", ""));
            v.push(crate::text::concat3(r, "/target/release/zutil_popup", ""));
            proof {
                reveal_strlit("");
            }
            assert(v@.map_values(|s: String| s@) =~= popup_candidates_spec(Some(r@)));
        },
        None => {
            assert(v@.map_values(|s: String| s@) =~= popup_candidates_spec(None));
        },
    }
    v
}

/// The first candidate that exists, or the bare name (found on the path) when none does.
pub fn find_popup_binary(candidates: &Vec<String>, exists: &Vec<bool>) -> (p: String)
    requires
        candidates@.len() == exists@.len(),
    ensures
        (exists|i: int| 0 <= i < exists@.len() && exists@[i]) ==> (exists|i: int|
            0 <= i < exists@.len() && exists@[i] && p@ == candidates@[i]@ && forall|j: int|
                0 <= j < i ==> !exists@[j]),
        !(exists|i: int| 0 <= i < exists@.len() && exists@[i]) ==> p@ == "zutil_popup"@,
{
    let mut i: usize = 0;
    while i < candidates.len()
        invariant
            i <= candidates@.len(),
            candidates@.len() == exists@.len(),
            forall|j: int| 0 <= j < i ==> !exists@[j],
        decreases candidates@.len() - i,
    {
        if exists[i] {
            return candidates[i].clone();
        }
        i += 1;
    }
    "zutil_popup".to_string()
}

} // verus!
