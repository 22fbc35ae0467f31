use vstd::prelude::*;
use crate::helpers::edit::edit_col_in_row;
use crate::helpers::edit::delete_by_id;
use crate::helpers::project::{flag_value, new_row_project, normalize_path, normalize_path_spec};
use crate::helpers::shortcuts::OWNER_PROJECT;
use crate::globals::ItemKind;
use crate::menu::{EntrySpec, MenuEntry, entries_view};
use crate::payload::{DeleteRowIn, EditColInRowIn, EditSpec, InsertDataIn, edit_spec, insert_spec};
use crate::row_col::{Col, ColSpec, Row, flag_at, int_at, rows_view, text_at};
use crate::text::{decimal, int_to_string, opt_str_view};

verus! {

/// One stored project.
#[derive(Debug)]
pub struct ProjectRow {
    pub id: i64,
    pub title: String,
    pub path: String,
    pub launch_zed: bool,
    pub launch_adstud: bool,
}

pub struct ProjectSpec {
    pub id: int,
    pub title: Seq<char>,
    pub path: Seq<char>,
    pub launch_zed: bool,
    pub launch_adstud: bool,
}

impl View for ProjectRow {
    type V = ProjectSpec;

    open spec fn view(&self) -> ProjectSpec {
        ProjectSpec {
            id: self.id as int,
            title: self.title@,
            path: self.path@,
            launch_zed: self.launch_zed,
            launch_adstud: self.launch_adstud,
        }
    }
}

pub open spec fn projects_view(v: Seq<ProjectRow>) -> Seq<ProjectSpec> {
    v.map_values(|p: ProjectRow| p@)
}

/// The projects screen: the stored projects, and the dialog that creates
/// a project (`editing_id` none) or edits one.
pub struct ProjectsState {
    pub rows: Vec<ProjectRow>,
    pub show_modal: bool,
    pub editing_id: Option<i64>,
    pub form_title: String,
    pub form_path: String,
    pub form_launch_zed: bool,
    pub form_launch_adstud: bool,
}

impl Default for ProjectsState {
    fn default() -> (s: Self)
        ensures
            s.rows@.len() == 0,
            !s.show_modal,
            s.editing_id is None,
            s.form_title@ == Seq::<char>::empty(),
            s.form_path@ == Seq::<char>::empty(),
            !s.form_launch_zed,
            !s.form_launch_adstud,
    {
        ProjectsState {
            rows: Vec::new(),
            show_modal: false,
            editing_id: None,
            form_title: String::new(),
            form_path: String::new(),
            form_launch_zed: false,
            form_launch_adstud: false,
        }
    }
}

/// What the projects screen asks for.
#[derive(Debug, PartialEq, Eq)]
pub enum ProjectsAction {
    Nothing,
    Back,
    Create { title: String, path: String, launch_zed: bool, launch_adstud: bool },
    Update { id: i64, title: String, path: String, launch_zed: bool, launch_adstud: bool },
    Delete(i64),
    OpenTerminal { path: String },
    LaunchZed { path: String },
    LaunchAdstud { path: String },
}

impl ProjectsState {
    /// Opens the dialog on an empty form for a new project.
    pub fn open_new(&mut self)
        ensures
            final(self).show_modal,
            final(self).editing_id is None,
            final(self).form_title@ == Seq::<char>::empty(),
            final(self).form_path@ == Seq::<char>::empty(),
            !final(self).form_launch_zed,
            !final(self).form_launch_adstud,
            final(self).rows == old(self).rows,
    {
        self.show_modal = true;
        self.editing_id = None;
        self.form_title = String::new();
        self.form_path = String::new();
        self.form_launch_zed = false;
        self.form_launch_adstud = false;
    }

    /// Opens the dialog on the fields of a stored project.
    pub fn open_edit(&mut self, row: &ProjectRow)
        ensures
            final(self).show_modal,
            final(self).editing_id == Some(row.id),
            final(self).form_title@ == row.title@,
            final(self).form_path@ == row.path@,
            final(self).form_launch_zed == row.launch_zed,
            final(self).form_launch_adstud == row.launch_adstud,
            final(self).rows == old(self).rows,
    {
        self.show_modal = true;
        self.editing_id = Some(row.id);
        self.form_title = row.title.clone();
        self.form_path = row.path.clone();
        self.form_launch_zed = row.launch_zed;
        self.form_launch_adstud = row.launch_adstud;
    }

    /// Opens the dialog on the stored project with this id, if there is one.
    pub fn open_edit_by_id(&mut self, id: i64) -> (found: bool)
        ensures
            found == exists|i: int| 0 <= i < old(self).rows@.len() && old(self).rows@[i].id == id,
            found ==> final(self).show_modal && final(self).editing_id == Some(id),
            !found ==> final(self).show_modal == old(self).show_modal && final(self).editing_id
                == old(self).editing_id,
            final(self).rows == old(self).rows,
    {
        let mut i: usize = 0;
        while i < self.rows.len()
            invariant
                i <= self.rows@.len(),
                self.rows == old(self).rows,
                self.show_modal == old(self).show_modal,
                self.editing_id == old(self).editing_id,
                forall|j: int| 0 <= j < i ==> self.rows@[j].id != id,
            decreases self.rows@.len() - i,
        {
            if self.rows[i].id == id {
                self.show_modal = true;
                self.editing_id = Some(id);
                self.form_title = self.rows[i].title.clone();
                self.form_path = self.rows[i].path.clone();
                self.form_launch_zed = self.rows[i].launch_zed;
                self.form_launch_adstud = self.rows[i].launch_adstud;
                return true;
            }
            i += 1;
        }
        false
    }

    /// The dialog can be confirmed once the title and the path are filled in.
    pub fn can_confirm(&self) -> (b: bool)
        ensures
            b == (self.form_title@.len() > 0 && self.form_path@.len() > 0),
    {
        !self.form_title.as_str().is_empty() && !self.form_path.as_str().is_empty()
    }

    /// Confirm: the form becomes a new project or the update of the one
    /// being edited, and the dialog closes; nothing happens while the title
    /// or the path is empty.
    pub fn on_confirm(&mut self) -> (a: ProjectsAction)
        ensures
            !(old(self).form_title@.len() > 0 && old(self).form_path@.len() > 0) ==> a
                == ProjectsAction::Nothing && final(self).show_modal == old(self).show_modal,
            old(self).form_title@.len() > 0 && old(self).form_path@.len() > 0 ==> !final(self).show_modal,
            old(self).form_title@.len() > 0 && old(self).form_path@.len() > 0 && old(self).editing_id is None ==> (a matches ProjectsAction::Create { title, path, launch_zed, launch_adstud } && title@ == old(self).form_title@ && path@ == old(self).form_path@ && launch_zed == old(self).form_launch_zed && launch_adstud == old(self).form_launch_adstud),
            old(self).form_title@.len() > 0 && old(self).form_path@.len() > 0 && old(self).editing_id is Some ==> (a matches ProjectsAction::Update { id, title, path, launch_zed, launch_adstud } && id == old(self).editing_id->0 && title@ == old(self).form_title@ && path@ == old(self).form_path@ && launch_zed == old(self).form_launch_zed && launch_adstud == old(self).form_launch_adstud),
            final(self).rows == old(self).rows,
    {
        if !self.can_confirm() {
            return ProjectsAction::Nothing;
        }
        let title = self.form_title.clone();
        let path = self.form_path.clone();
        let launch_zed = self.form_launch_zed;
        let launch_adstud = self.form_launch_adstud;
        self.show_modal = false;
        match self.editing_id {
            Some(id) => ProjectsAction::Update { id, title, path, launch_zed, launch_adstud },
            None => ProjectsAction::Create { title, path, launch_zed, launch_adstud },
        }
    }

    /// Cancel closes the dialog.
    pub fn on_cancel(&mut self)
        ensures
            !final(self).show_modal,
            final(self).editing_id == old(self).editing_id,
            final(self).rows == old(self).rows,
    {
        self.show_modal = false;
    }
}

/// A stored row can be read as a project when it has an integer id, a text
/// title and a text path.
pub open spec fn project_parses(row: Seq<ColSpec>) -> bool {
    int_at(row, 0) is Some && text_at(row, 1) is Some && text_at(row, 2) is Some
}

pub open spec fn project_error(row: Seq<ColSpec>) -> Seq<char> {
    if int_at(row, 0) is None {
        "expected an integer id in the first column"@
    } else if text_at(row, 1) is None {
        "expected a text title in the second column"@
    } else {
        "expected a text path in the third column"@
    }
}

/// A project read back; a missing launch flag reads as false.
pub open spec fn project_of(row: Seq<ColSpec>) -> ProjectSpec {
    ProjectSpec {
        id: int_at(row, 0)->0,
        title: text_at(row, 1)->0,
        path: text_at(row, 2)->0,
        launch_zed: flag_at(row, 3),
        launch_adstud: flag_at(row, 4),
    }
}

/// The error of the first row that cannot be read as a project, if any.
pub open spec fn first_project_error(rows: Seq<Seq<ColSpec>>) -> Option<Seq<char>>
    decreases rows.len(),
{
    if rows.len() == 0 {
        None
    } else {
        match first_project_error(rows.drop_last()) {
            Some(e) => Some(e),
            None => if project_parses(rows.last()) {
                None
            } else {
                Some(project_error(rows.last()))
            },
        }
    }
}

proof fn lemma_first_project_error_kept(rows: Seq<Seq<ColSpec>>, j: int)
    requires
        0 <= j <= rows.len(),
        first_project_error(rows.take(j)) is Some,
    ensures
        first_project_error(rows) == first_project_error(rows.take(j)),
    decreases rows.len(),
{
    if j == rows.len() {
        assert(rows.take(j) =~= rows);
    } else {
        assert(rows.drop_last().take(j) =~= rows.take(j));
        lemma_first_project_error_kept(rows.drop_last(), j);
    }
}

/// The stored projects, in row order; the first row that cannot be read makes it an error.
pub fn load_projects(rows: &Vec<Row>) -> (res: Result<Vec<ProjectRow>, String>)
    requires
        forall|i: int| 0 <= i < rows@.len() ==> (#[trigger] rows@[i]).cols@.len() >= 3,
    ensures
        first_project_error(rows_view(rows@)) matches Some(e) ==> (res matches Err(m) && m@ == e),
        first_project_error(rows_view(rows@)) is None ==> (res matches Ok(v) && projects_view(v@)
            == rows_view(rows@).map_values(|r: Seq<ColSpec>| project_of(r))),
{
    let ghost all = rows_view(rows@);
    let mut out: Vec<ProjectRow> = Vec::new();
    let mut k: usize = 0;
    while k < rows.len()
        invariant
            k <= rows@.len(),
            all == rows_view(rows@),
            first_project_error(all.take(k as int)) is None,
            projects_view(out@) =~= all.take(k as int).map_values(|r: Seq<ColSpec>| project_of(r)),
        decreases rows@.len() - k,
    {
        assert(all.take(k + 1).drop_last() =~= all.take(k as int));
        assert(all.take(k + 1).last() == rows@[k as int]@);
        let r = &rows[k];
        let id = match r.int_at(0) {
            Some(v) => v,
            None => {
                proof {
                    lemma_first_project_error_kept(all, k + 1);
                }
                return Err("expected an integer id in the first column".to_string());
            },
        };
        let title = match r.text_at(1) {
            Some(t) => t,
            None => {
                proof {
                    lemma_first_project_error_kept(all, k + 1);
                }
                return Err("expected a text title in the second column".to_string());
            },
        };
        let path = match r.text_at(2) {
            Some(t) => t,
            None => {
                proof {
                    lemma_first_project_error_kept(all, k + 1);
                }
                return Err("expected a text path in the third column".to_string());
            },
        };
        let ghost before = projects_view(out@);
        let p = ProjectRow { id, title, path, launch_zed: r.flag_at(3), launch_adstud: r.flag_at(4) };
        out.push(p);
        assert(projects_view(out@) =~= before.push(p@));
        assert(all.take(k + 1).map_values(|r: Seq<ColSpec>| project_of(r)) =~= all.take(
            k as int,
        ).map_values(|r: Seq<ColSpec>| project_of(r)).push(project_of(all[k as int])));
        k += 1;
    }
    assert(all.take(rows@.len() as int) =~= all);
    Ok(out)
}

/// The circle of projects: each opens a terminal in its folder.
pub fn project_entries(rows: &Vec<ProjectRow>) -> (v: Vec<MenuEntry>)
    ensures
        entries_view(v@) == projects_view(rows@).map_values(
            |p: ProjectSpec| EntrySpec {
                label: p.title,
                kind: ItemKind::OpenProjectTerminal(p.id as i64),
                owner_kind: OWNER_PROJECT@,
                owner_id: decimal(p.id),
            },
        ),
{
    let mut v: Vec<MenuEntry> = Vec::new();
    let mut k: usize = 0;
    while k < rows.len()
        invariant
            k <= rows@.len(),
            entries_view(v@) =~= projects_view(rows@.take(k as int)).map_values(
                |p: ProjectSpec| EntrySpec {
                    label: p.title,
                    kind: ItemKind::OpenProjectTerminal(p.id as i64),
                    owner_kind: OWNER_PROJECT@,
                    owner_id: decimal(p.id),
                },
            ),
        decreases rows@.len() - k,
    {
        let ghost before = entries_view(v@);
        let r = &rows[k];
        let e = MenuEntry {
            label: r.title.clone(),
            kind: ItemKind::OpenProjectTerminal(r.id),
            owner: (OWNER_PROJECT, int_to_string(r.id)),
        };
        v.push(e);
        assert(entries_view(v@) =~= before.push(e@));
        assert(rows@.take(k + 1) =~= rows@.take(k as int).push(rows@[k as int]));
        k += 1;
    }
    assert(rows@.take(rows@.len() as int) =~= rows@);
    v
}

/// The writes of updating a project, in order: title, path (normalized as
/// when it was created), and both launch flags.
pub open spec fn update_spec(
    id: i64,
    title: Seq<char>,
    path: Seq<char>,
    launch_zed: bool,
    launch_adstud: bool,
    home: Option<Seq<char>>,
) -> Seq<EditSpec> {
    let row = decimal(id as int);
    seq![
        edit_spec("projects"@, row, "title"@, ColSpec::Text(title)),
        edit_spec("projects"@, row, "path"@, ColSpec::Text(normalize_path_spec(path, home))),
        edit_spec("projects"@, row, "launch_zed"@, flag_value(launch_zed)),
        edit_spec("projects"@, row, "launch_adstud"@, flag_value(launch_adstud)),
    ]
}

pub fn update_edits(
    id: i64,
    title: String,
    path: &str,
    launch_zed: bool,
    launch_adstud: bool,
    home: Option<&str>,
) -> (edits: Vec<EditColInRowIn>)
    ensures
        edits@.map_values(|e: EditColInRowIn| e@) == update_spec(
            id,
            title@,
            path@,
            launch_zed,
            launch_adstud,
            opt_str_view(home),
        ),
{
    let ghost tv = title@;
    let clean = normalize_path(path, home);
    let zed: i64 = if launch_zed {
        1
    } else {
        0
    };
    let adstud: i64 = if launch_adstud {
        1
    } else {
        0
    };
    let edits = vec![
        edit_col_in_row("projects", id, "title", Col::Text(title)),
        edit_col_in_row("projects", id, "path", Col::Text(clean)),
        edit_col_in_row("projects", id, "launch_zed", Col::Integer(zed)),
        edit_col_in_row("projects", id, "launch_adstud", Col::Integer(adstud)),
    ];
    assert(edits@.map_values(|e: EditColInRowIn| e@) =~= update_spec(
        id,
        tv,
        path@,
        launch_zed,
        launch_adstud,
        opt_str_view(home),
    ));
    edits
}

/// A program to start in a project's folder, with its arguments.
#[derive(Debug, PartialEq, Eq)]
pub struct LaunchCommand {
    pub program: &'static str,
    pub args: Vec<&'static str>,
    /// The folder, normalized as paths are when stored.
    pub folder: String,
    /// Whether its standard streams are detached.
    pub quiet: bool,
}

/// What a project button starts: a terminal, or zed or adstud through an
/// interactive shell, in the project's folder; other actions start nothing.
pub fn launch_command(action: &ProjectsAction, home: Option<&str>) -> (c: Option<LaunchCommand>)
    ensures
        action matches ProjectsAction::OpenTerminal { path } ==> (c matches Some(l) && l.program@ == "x-terminal-emulator"@ && l.args@.len() == 0 && !l.quiet && l.folder@ == normalize_path_spec(path@, opt_str_view(home))),
        action matches ProjectsAction::LaunchZed { path } ==> (c matches Some(l) && l.program@ == "bash"@ && l.args@.len() == 2 && l.args@[0]@ == "-ic"@ && l.args@[1]@ == "zed ."@ && l.quiet && l.folder@ == normalize_path_spec(path@, opt_str_view(home))),
        action matches ProjectsAction::LaunchAdstud { path } ==> (c matches Some(l) && l.program@ == "bash"@ && l.args@.len() == 2 && l.args@[0]@ == "-ic"@ && l.args@[1]@ == "adstud"@ && l.quiet && l.folder@ == normalize_path_spec(path@, opt_str_view(home))),
        !(action is OpenTerminal || action is LaunchZed || action is LaunchAdstud) ==> c is None,
{
    match action {
        ProjectsAction::OpenTerminal { path } => Some(
            LaunchCommand {
                program: "x-terminal-emulator",
                args: Vec::new(),
                folder: normalize_path(path.as_str(), home),
                quiet: false,
            },
        ),
        ProjectsAction::LaunchZed { path } => Some(
            LaunchCommand {
                program: "bash",
                args: vec!["-ic", "zed ."],
                folder: normalize_path(path.as_str(), home),
                quiet: true,
            },
        ),
        ProjectsAction::LaunchAdstud { path } => Some(
            LaunchCommand {
                program: "bash",
                args: vec!["-ic", "adstud"],
                folder: normalize_path(path.as_str(), home),
                quiet: true,
            },
        ),
        _ => None,
    }
}

/// What carrying out an action of the projects screen takes: closing it, one
/// write (the screen's list is then read again), or starting a program.
pub enum ProjectsCommand {
    Nothing,
    Close,
    Insert(InsertDataIn),
    Edits(Vec<EditColInRowIn>),
    Delete(DeleteRowIn),
    /// A program to start, and where a failure to start it is reported.
    Launch(LaunchCommand, &'static str),
}

/// Back closes the screen; Create stores a new project row, Update writes its
/// four columns, Delete removes it by id; the three project buttons start
/// their program, each reported under its own name; nothing else happens.
pub fn projects_action_step(action: ProjectsAction, home: Option<&str>) -> (r: ProjectsCommand)
    ensures
        action is Back ==> r is Close,
        action is Nothing ==> r is Nothing,
        action matches ProjectsAction::Create { title, path, launch_zed, launch_adstud } ==> (
            r matches ProjectsCommand::Insert(row) && row@ == insert_spec(
                "projects"@,
                seq![
                    ("title"@, ColSpec::Text(title@)),
                    ("path"@, ColSpec::Text(normalize_path_spec(path@, opt_str_view(home)))),
                    ("launch_zed"@, flag_value(launch_zed)),
                    ("launch_adstud"@, flag_value(launch_adstud)),
                ],
            )),
        action matches ProjectsAction::Update { id, title, path, launch_zed, launch_adstud } ==> (
            r matches ProjectsCommand::Edits(edits) && edits@.map_values(|e: EditColInRowIn| e@)
                == update_spec(id, title@, path@, launch_zed, launch_adstud, opt_str_view(home))),
        action matches ProjectsAction::Delete(id) ==> (r matches ProjectsCommand::Delete(d) && d@
            == ("projects"@, decimal(id as int))),
        action matches ProjectsAction::OpenTerminal { path } ==> (r matches ProjectsCommand::Launch(
            l,
            loc,
        ) && l.program@ == "x-terminal-emulator"@ && l.args@.len() == 0 && !l.quiet && l.folder@
            == normalize_path_spec(path@, opt_str_view(home)) && loc@ == "open_terminal"@),
        action matches ProjectsAction::LaunchZed { path } ==> (r matches ProjectsCommand::Launch(
            l,
            loc,
        ) && l.program@ == "bash"@ && l.args@.len() == 2 && l.args@[0]@ == "-ic"@ && l.args@[1]@
            == "zed ."@ && l.quiet && l.folder@ == normalize_path_spec(path@, opt_str_view(home))
            && loc@ == "launch_zed"@),
        action matches ProjectsAction::LaunchAdstud { path } ==> (r matches ProjectsCommand::Launch(
            l,
            loc,
        ) && l.program@ == "bash"@ && l.args@.len() == 2 && l.args@[0]@ == "-ic"@ && l.args@[1]@
            == "adstud"@ && l.quiet && l.folder@ == normalize_path_spec(path@, opt_str_view(home))
            && loc@ == "launch_adstud"@),
{
    let launch = launch_command(&action, home);
    match action {
        ProjectsAction::Nothing => ProjectsCommand::Nothing,
        ProjectsAction::Back => ProjectsCommand::Close,
        ProjectsAction::Create { title, path, launch_zed, launch_adstud } => {
            let ghost (tv, pv) = (title@, path@);
            let row = new_row_project(title, path, launch_zed, launch_adstud, home);
            assert(row@.values =~= seq![
                ("title"@, ColSpec::Text(tv)),
                ("path"@, ColSpec::Text(normalize_path_spec(pv, opt_str_view(home)))),
                ("launch_zed"@, flag_value(launch_zed)),
                ("launch_adstud"@, flag_value(launch_adstud)),
            ]);
            ProjectsCommand::Insert(row)
        },
        ProjectsAction::Update { id, title, path, launch_zed, launch_adstud } => ProjectsCommand::Edits(
            update_edits(id, title, path.as_str(), launch_zed, launch_adstud, home),
        ),
        ProjectsAction::Delete(id) => ProjectsCommand::Delete(delete_by_id("projects", id)),
        ProjectsAction::OpenTerminal { .. } => match launch {
            Some(l) => ProjectsCommand::Launch(l, "open_terminal"),
            None => ProjectsCommand::Nothing,
        },
        ProjectsAction::LaunchZed { .. } => match launch {
            Some(l) => ProjectsCommand::Launch(l, "launch_zed"),
            None => ProjectsCommand::Nothing,
        },
        ProjectsAction::LaunchAdstud { .. } => match launch {
            Some(l) => ProjectsCommand::Launch(l, "launch_adstud"),
            None => ProjectsCommand::Nothing,
        },
    }
}

} // verus!
