use vstd::prelude::*;

verus! {

/// The full-screen pages; the circle menu is the home page.
#[derive(Clone, Copy, PartialEq, Eq, Structural, Debug)]
pub enum Page {
    CircleMenu,
    EditText,
    CreateText,
    EditSingleText,
    Json,
    JsonExample,
    CreateTemplate,
    EditSingleTemplate,
    FillTemplate,
    Projects,
}

/// What happened on a page, as far as the choice of page goes.
#[derive(Clone, Copy, PartialEq, Eq, Structural, Debug)]
pub enum PageEvent {
    /// The page's own Back.
    Back,
    /// Its work is done: a text or template created, an edit saved, a filled
    /// template copied, an import stored, the projects screen closed.
    Finished,
    /// Another page was asked for (by the page, or by the top menu) and what
    /// it shows could be loaded; a form opened so keeps what was typed in it.
    Open(Page),
    /// A new-item form was asked for from the list or the JSON example: it
    /// starts empty.
    StartNew(Page),
    /// A right click outside any overlay, or the corner back button.
    Dismissed,
}

/// What goes with a change of page.
#[derive(Clone, Copy, PartialEq, Eq, Structural, Debug)]
pub struct PageCommand {
    /// Read the list of texts and templates again.
    pub reload_list: bool,
    /// Read the stored projects again.
    pub reload_projects: bool,
    /// Start the new-text form empty.
    pub reset_create_text: bool,
    /// Start the new-template form empty.
    pub reset_create_template: bool,
}

pub open spec fn no_command() -> PageCommand {
    PageCommand {
        reload_list: false,
        reload_projects: false,
        reset_create_text: false,
        reset_create_template: false,
    }
}

pub open spec fn reload_only() -> PageCommand {
    PageCommand { reload_list: true, ..no_command() }
}

/// Which page comes next, and what goes with it.
/// - Dismissing any page goes home.
/// - Opening a page shows it: the list is read again for the list page and
///   the projects for the projects page; a form keeps what was typed in it,
///   unless it is started anew, when it starts empty.
/// - Back from the list, the JSON page or the projects page goes home; from
///   a form or an editor it goes to the list, read again; from the JSON example
///   back to the JSON page.
/// - Finishing a new text stays on its form, emptied; a new template goes to
///   the list with its form emptied; a saved edit or a filled template goes to
///   the list; an import stays on the JSON page and reads the list again; the
///   projects page goes home. Nothing else finishes.
pub open spec fn page_step_spec(page: Page, event: PageEvent) -> (Page, PageCommand) {
    match event {
        PageEvent::Dismissed => (Page::CircleMenu, no_command()),
        PageEvent::Open(t) => (
            t,
            PageCommand {
                reload_list: t == Page::EditText,
                reload_projects: t == Page::Projects,
                ..no_command()
            },
        ),
        PageEvent::StartNew(t) => (
            t,
            PageCommand {
                reload_list: t == Page::EditText,
                reload_projects: t == Page::Projects,
                reset_create_text: t == Page::CreateText,
                reset_create_template: t == Page::CreateTemplate,
            },
        ),
        PageEvent::Back => match page {
            Page::CreateText | Page::EditSingleText | Page::CreateTemplate
            | Page::EditSingleTemplate | Page::FillTemplate => (Page::EditText, reload_only()),
            Page::JsonExample => (Page::Json, no_command()),
            _ => (Page::CircleMenu, no_command()),
        },
        PageEvent::Finished => match page {
            Page::CreateText => (
                Page::CreateText,
                PageCommand { reset_create_text: true, ..no_command() },
            ),
            Page::CreateTemplate => (
                Page::EditText,
                PageCommand { reload_list: true, reset_create_template: true, ..no_command() },
            ),
            Page::EditSingleText | Page::EditSingleTemplate | Page::FillTemplate => (
                Page::EditText,
                reload_only(),
            ),
            Page::Json => (Page::Json, reload_only()),
            Page::Projects => (Page::CircleMenu, no_command()),
            _ => (page, no_command()),
        },
    }
}

pub fn page_step(page: Page, event: PageEvent) -> (r: (Page, PageCommand))
    ensures
        r == page_step_spec(page, event),
{
    let none = PageCommand {
        reload_list: false,
        reload_projects: false,
        reset_create_text: false,
        reset_create_template: false,
    };
    let reload = PageCommand { reload_list: true, ..none };
    match event {
        PageEvent::Dismissed => (Page::CircleMenu, none),
        PageEvent::Open(t) => (
            t,
            PageCommand {
                reload_list: t == Page::EditText,
                reload_projects: t == Page::Projects,
                ..none
            },
        ),
        PageEvent::StartNew(t) => (
            t,
            PageCommand {
                reload_list: t == Page::EditText,
                reload_projects: t == Page::Projects,
                reset_create_text: t == Page::CreateText,
                reset_create_template: t == Page::CreateTemplate,
            },
        ),
        PageEvent::Back => match page {
            Page::CreateText | Page::EditSingleText | Page::CreateTemplate
            | Page::EditSingleTemplate | Page::FillTemplate => (Page::EditText, reload),
            Page::JsonExample => (Page::Json, none),
            _ => (Page::CircleMenu, none),
        },
        PageEvent::Finished => match page {
            Page::CreateText => (Page::CreateText, PageCommand { reset_create_text: true, ..none }),
            Page::CreateTemplate => (
                Page::EditText,
                PageCommand { reload_list: true, reset_create_template: true, ..none },
            ),
            Page::EditSingleText | Page::EditSingleTemplate | Page::FillTemplate => (
                Page::EditText,
                reload,
            ),
            Page::Json => (Page::Json, reload),
            Page::Projects => (Page::CircleMenu, none),
            _ => (page, none),
        },
    }
}

/// Back always leaves the page it is pressed on, and never lands on a form
/// or an editor.
pub proof fn law_back_leaves_the_page(page: Page)
    requires
        page != Page::CircleMenu,
    ensures
        page_step_spec(page, PageEvent::Back).0 != page,
        page_step_spec(page, PageEvent::Back).0 is CircleMenu
            || page_step_spec(page, PageEvent::Back).0 is EditText
            || page_step_spec(page, PageEvent::Back).0 is Json,
{
}

} // verus!
