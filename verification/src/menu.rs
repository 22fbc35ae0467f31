use vstd::prelude::*;
use std::collections::HashMap;
use crate::globals::{ItemKind, MenuItem};
use crate::helpers::popularity::MAIN_NAV_NAMES;
use crate::helpers::shortcuts::{
    OWNER_CATEGORY, OWNER_MAIN_NAV, OWNER_PROJECT, OWNER_TEMPLATE, OWNER_TEXT,
};
use crate::row_col::{ColSpec, Row, flag_at, int_at, rows_view, text_at, text_or_empty};
use crate::text::{decimal, int_to_string, str_eq};

verus! {

/// An item of a circle before its counter and shortcut are read: its label,
/// what it does, and what it is in the shortcuts table.
#[derive(Debug)]
pub struct MenuEntry {
    pub label: String,
    pub kind: ItemKind,
    pub owner: (&'static str, String),
}

pub struct EntrySpec {
    pub label: Seq<char>,
    pub kind: ItemKind,
    pub owner_kind: Seq<char>,
    pub owner_id: Seq<char>,
}

impl View for MenuEntry {
    type V = EntrySpec;

    open spec fn view(&self) -> EntrySpec {
        EntrySpec {
            label: self.label@,
            kind: self.kind,
            owner_kind: self.owner.0@,
            owner_id: self.owner.1@,
        }
    }
}

pub open spec fn entries_view(v: Seq<MenuEntry>) -> Seq<EntrySpec> {
    v.map_values(|e: MenuEntry| e@)
}

/// The item shown for an entry, with its counter and shortcut.
pub fn menu_item(entry: MenuEntry, counter: u32, shortcut: Option<String>) -> (item: MenuItem)
    ensures
        item.label@ == entry.label@,
        item.kind == entry.kind,
        item.counter == counter,
        item.shortcut == shortcut,
        item.owner.0@ == entry.owner.0@,
        item.owner.1@ == entry.owner.1@,
{
    MenuItem { label: entry.label, kind: entry.kind, counter, shortcut, owner: entry.owner }
}

/// What a root entry opens, by its name.
pub open spec fn root_kind_spec(name: Seq<char>) -> ItemKind {
    if name == "Templates"@ {
        ItemKind::PushTemplatesCategories
    } else if name == "AI Prompts"@ {
        ItemKind::PushPromptCategories
    } else if name == "Text"@ {
        ItemKind::PushTextCategories
    } else if name == "Terminal Commands"@ {
        ItemKind::PushTerminalCategories
    } else if name == "Projects"@ {
        ItemKind::PushProjects
    } else {
        ItemKind::Nothing
    }
}

pub fn root_kind(name: &str) -> (k: ItemKind)
    ensures
        k == root_kind_spec(name@),
{
    if str_eq(name, "Templates") {
        ItemKind::PushTemplatesCategories
    } else if str_eq(name, "AI Prompts") {
        ItemKind::PushPromptCategories
    } else if str_eq(name, "Text") {
        ItemKind::PushTextCategories
    } else if str_eq(name, "Terminal Commands") {
        ItemKind::PushTerminalCategories
    } else if str_eq(name, "Projects") {
        ItemKind::PushProjects
    } else {
        ItemKind::Nothing
    }
}

/// The entries of the root circle, one per main-navigation name, in order.
pub fn root_entries() -> (v: Vec<MenuEntry>)
    ensures
        v@.len() == MAIN_NAV_NAMES@.len(),
        forall|i: int|
            0 <= i < v@.len() ==> #[trigger] v@[i]@ == (EntrySpec {
                label: MAIN_NAV_NAMES@[i]@,
                kind: root_kind_spec(MAIN_NAV_NAMES@[i]@),
                owner_kind: OWNER_MAIN_NAV@,
                owner_id: MAIN_NAV_NAMES@[i]@,
            }),
{
    let mut v: Vec<MenuEntry> = Vec::new();
    let mut i: usize = 0;
    while i < 5
        invariant
            i <= 5,
            MAIN_NAV_NAMES@.len() == 5,
            v@.len() == i,
            forall|j: int|
                0 <= j < i ==> #[trigger] v@[j]@ == (EntrySpec {
                    label: MAIN_NAV_NAMES@[j]@,
                    kind: root_kind_spec(MAIN_NAV_NAMES@[j]@),
                    owner_kind: OWNER_MAIN_NAV@,
                    owner_id: MAIN_NAV_NAMES@[j]@,
                }),
        decreases 5 - i,
    {
        let name: &str = MAIN_NAV_NAMES[i];
        v.push(
            MenuEntry {
                label: name.to_string(),
                kind: root_kind(name),
                owner: (OWNER_MAIN_NAV, name.to_string()),
            },
        );
        i += 1;
    }
    v
}

/// Which click counter an item counts on.
#[derive(Debug, PartialEq, Eq)]
pub enum CounterTarget {
    /// The main-navigation counter of the entry with this name.
    MainNav(String),
    Category(i64),
    Template(i64),
    Text(i64),
    Project(i64),
    /// Nothing is counted.
    Untracked,
}

pub enum CounterSpec {
    MainNav(Seq<char>),
    Category(i64),
    Template(i64),
    Text(i64),
    Project(i64),
    Untracked,
}

impl View for CounterTarget {
    type V = CounterSpec;

    open spec fn view(&self) -> CounterSpec {
        match self {
            CounterTarget::MainNav(s) => CounterSpec::MainNav(s@),
            CounterTarget::Category(i) => CounterSpec::Category(*i),
            CounterTarget::Template(i) => CounterSpec::Template(*i),
            CounterTarget::Text(i) => CounterSpec::Text(*i),
            CounterTarget::Project(i) => CounterSpec::Project(*i),
            CounterTarget::Untracked => CounterSpec::Untracked,
        }
    }
}

/// The counter that choosing an item raises: the root entries count by
/// their label, circles of categories by category, and the leaves by the
/// template, text or project they open.
pub open spec fn counter_target_spec(kind: ItemKind, label: Seq<char>) -> CounterSpec {
    match kind {
        ItemKind::PushTemplatesCategories | ItemKind::PushPromptCategories
        | ItemKind::PushTextCategories | ItemKind::PushTerminalCategories
        | ItemKind::PushProjects => CounterSpec::MainNav(label),
        ItemKind::PushTemplatesInCategory(c) | ItemKind::PushPromptsInCategory(c)
        | ItemKind::PushTextsInCategory(c) | ItemKind::PushTerminalsInCategory(c) =>
            CounterSpec::Category(c),
        ItemKind::OpenTemplate(id) => CounterSpec::Template(id),
        ItemKind::CopyPrompt(id) | ItemKind::ViewText(id) | ItemKind::OpenTextEditor(id) =>
            CounterSpec::Text(id),
        ItemKind::OpenProjectTerminal(id) | ItemKind::EditProject(id) => CounterSpec::Project(id),
        ItemKind::NewPlus | ItemKind::Nothing => CounterSpec::Untracked,
    }
}

pub fn counter_target(item: &MenuItem) -> (t: CounterTarget)
    ensures
        t@ == counter_target_spec(item.kind, item.label@),
{
    match item.kind {
        ItemKind::PushTemplatesCategories | ItemKind::PushPromptCategories
        | ItemKind::PushTextCategories | ItemKind::PushTerminalCategories
        | ItemKind::PushProjects => CounterTarget::MainNav(item.label.clone()),
        ItemKind::PushTemplatesInCategory(c) | ItemKind::PushPromptsInCategory(c)
        | ItemKind::PushTextsInCategory(c) | ItemKind::PushTerminalsInCategory(c) =>
            CounterTarget::Category(c),
        ItemKind::OpenTemplate(id) => CounterTarget::Template(id),
        ItemKind::CopyPrompt(id) | ItemKind::ViewText(id) | ItemKind::OpenTextEditor(id) =>
            CounterTarget::Text(id),
        ItemKind::OpenProjectTerminal(id) | ItemKind::EditProject(id) => CounterTarget::Project(
            id,
        ),
        ItemKind::NewPlus | ItemKind::Nothing => CounterTarget::Untracked,
    }
}

fn contains_id(ids: &Vec<i64>, c: i64) -> (r: bool)
    ensures
        r == ids@.contains(c),
{
    let mut i: usize = 0;
    while i < ids.len()
        invariant
            i <= ids@.len(),
            forall|j: int| 0 <= j < i ==> ids@[j] != c,
        decreases ids@.len() - i,
    {
        if ids[i] == c {
            return true;
        }
        i += 1;
    }
    false
}

/// Which texts a circle of texts shows, by their type.
#[derive(Clone, Copy, PartialEq, Eq, Structural, Debug)]
pub enum TextFilter {
    /// Texts of type `terminal command`.
    TerminalCommands,
    /// Every text that is not of type `prompt`.
    NotPrompts,
}

/// Whether a text of type `t` (empty when it has none) passes the filter.
pub open spec fn passes(f: TextFilter, t: Seq<char>) -> bool {
    match f {
        TextFilter::TerminalCommands => t == "terminal command"@,
        TextFilter::NotPrompts => t != "prompt"@,
    }
}

fn passes_filter(f: TextFilter, t: &str) -> (r: bool)
    ensures
        r == passes(f, t@),
{
    match f {
        TextFilter::TerminalCommands => str_eq(t, "terminal command"),
        TextFilter::NotPrompts => !str_eq(t, "prompt"),
    }
}

/// The distinct categories (first appearance first) held in column `col`
/// of the rows that `keep` admits, leaving out categories with no known name.
pub open spec fn category_ids(
    rows: Seq<Seq<ColSpec>>,
    col: int,
    names: Map<i64, String>,
    keep: spec_fn(Seq<ColSpec>) -> bool,
) -> Seq<int>
    decreases rows.len(),
{
    if rows.len() == 0 {
        Seq::empty()
    } else {
        let rest = category_ids(rows.drop_last(), col, names, keep);
        let row = rows.last();
        match int_at(row, col) {
            Some(c) => if keep(row) && names.contains_key(c as i64) && !rest.contains(c) {
                rest.push(c)
            } else {
                rest
            },
            None => rest,
        }
    }
}

/// The entry for a category, named as the map names it.
pub open spec fn category_entry(c: int, names: Map<i64, String>, kind: ItemKind) -> EntrySpec {
    EntrySpec {
        label: names[c as i64]@,
        kind,
        owner_kind: OWNER_CATEGORY@,
        owner_id: decimal(c),
    }
}

/// A circle of categories: of terminal commands, of other texts, or of templates.
#[derive(Clone, Copy, PartialEq, Eq, Structural, Debug)]
pub enum CategoryCircle {
    TerminalCommands,
    Texts,
    Templates,
}

/// The column of a row that holds its category: texts keep it in the
/// fourth column, templates in the sixth.
pub open spec fn category_column(circle: CategoryCircle) -> int {
    match circle {
        CategoryCircle::Templates => 5,
        _ => 3,
    }
}

/// Which rows count for the circle: texts by their type, every template.
pub open spec fn row_counts_for(circle: CategoryCircle) -> spec_fn(Seq<ColSpec>) -> bool {
    |row: Seq<ColSpec>|
        match circle {
            CategoryCircle::TerminalCommands => passes(
                TextFilter::TerminalCommands,
                text_or_empty(row, 5),
            ),
            CategoryCircle::Texts => passes(TextFilter::NotPrompts, text_or_empty(row, 5)),
            CategoryCircle::Templates => true,
        }
}

/// What choosing a category of the circle opens.
pub open spec fn category_kind(circle: CategoryCircle, c: i64) -> ItemKind {
    match circle {
        CategoryCircle::TerminalCommands => ItemKind::PushTerminalsInCategory(c),
        CategoryCircle::Texts => ItemKind::PushTextsInCategory(c),
        CategoryCircle::Templates => ItemKind::PushTemplatesInCategory(c),
    }
}

fn row_counts(circle: CategoryCircle, row: &Row) -> (r: bool)
    ensures
        r == row_counts_for(circle)(row@),
{
    match circle {
        CategoryCircle::TerminalCommands => passes_filter(
            TextFilter::TerminalCommands,
            row.text_or_empty(5).as_str(),
        ),
        CategoryCircle::Texts => passes_filter(TextFilter::NotPrompts, row.text_or_empty(5).as_str()),
        CategoryCircle::Templates => true,
    }
}

/// The circle of the categories that the counted rows are filed under, each
/// once, in the order they first appear; categories without a known name
/// are left out.
pub fn category_entries(rows: &Vec<Row>, names: &HashMap<i64, String>, circle: CategoryCircle) -> (v:
    Vec<MenuEntry>)
    ensures
        entries_view(v@) == category_ids(
            rows_view(rows@),
            category_column(circle),
            names@,
            row_counts_for(circle),
        ).map_values(|c: int| category_entry(c, names@, category_kind(circle, c as i64))),
{
    let ghost all = rows_view(rows@);
    let ghost keep = row_counts_for(circle);
    let ghost col = category_column(circle);
    let col_exec: usize = match circle {
        CategoryCircle::Templates => 5,
        _ => 3,
    };
    let mut ids: Vec<i64> = Vec::new();
    let mut v: Vec<MenuEntry> = Vec::new();
    let mut k: usize = 0;
    while k < rows.len()
        invariant
            k <= rows@.len(),
            all == rows_view(rows@),
            keep == row_counts_for(circle),
            col == category_column(circle),
            col_exec == col,
            ids@.map_values(|c: i64| c as int) =~= category_ids(all.take(k as int), col, names@, keep),
            entries_view(v@) =~= ids@.map_values(|c: i64| c as int).map_values(
                |c: int| category_entry(c, names@, category_kind(circle, c as i64)),
            ),
        decreases rows@.len() - k,
    {
        let ghost prev = all.take(k as int);
        assert(all.take(k + 1).drop_last() =~= prev);
        assert(all.take(k + 1).last() == rows@[k as int]@);
        let ghost rest = category_ids(prev, col, names@, keep);
        let row = &rows[k];
        match row.int_at(col_exec) {
            Some(c) => {
                if row_counts(circle, row) && !contains_id(&ids, c) {
                    assert(ids@.contains(c) == rest.contains(c as int)) by {
                        if rest.contains(c as int) {
                            let j = choose|j: int| 0 <= j < rest.len() && rest[j] == c as int;
                            assert(ids@[j] == c);
                        }
                    }
                    match names.get(&c) {
                        Some(name) => {
                            let ghost before_ids = ids@;
                            let ghost before_v = v@;
                            let kind = match circle {
                                CategoryCircle::TerminalCommands => ItemKind::PushTerminalsInCategory(c),
                                CategoryCircle::Texts => ItemKind::PushTextsInCategory(c),
                                CategoryCircle::Templates => ItemKind::PushTemplatesInCategory(c),
                            };
                            ids.push(c);
                            v.push(
                                MenuEntry {
                                    label: name.clone(),
                                    kind,
                                    owner: (OWNER_CATEGORY, int_to_string(c)),
                                },
                            );
                            assert(ids@.map_values(|c: i64| c as int) =~= before_ids.map_values(
                                |c: i64| c as int,
                            ).push(c as int));
                            assert(entries_view(v@) =~= entries_view(before_v).push(
                                category_entry(c as int, names@, category_kind(circle, c)),
                            ));
                        },
                        None => {},
                    }
                } else {
                    assert(ids@.contains(c) == rest.contains(c as int)) by {
                        if ids@.contains(c) {
                            let j = choose|j: int| 0 <= j < ids@.len() && ids@[j] == c;
                            assert(rest[j] == c as int);
                        }
                    }
                }
            },
            None => {},
        }
        k += 1;
    }
    assert(all.take(rows@.len() as int) =~= all);
    v
}

/// A circle of leaves: the texts of one category (terminal commands or
/// other texts), the templates of one category, or every prompt.
#[derive(Clone, Copy, PartialEq, Eq, Structural, Debug)]
pub enum LeafCircle {
    TerminalsIn(i64),
    TextsIn(i64),
    TemplatesIn(i64),
    Prompts,
}

/// Whether a row is shown in the leaf circle.
pub open spec fn leaf_shows(circle: LeafCircle, row: Seq<ColSpec>) -> bool {
    match circle {
        LeafCircle::TerminalsIn(c) => passes(TextFilter::TerminalCommands, text_or_empty(row, 5))
            && int_at(row, 3) == Some(c as int),
        LeafCircle::TextsIn(c) => passes(TextFilter::NotPrompts, text_or_empty(row, 5)) && int_at(
            row,
            3,
        ) == Some(c as int),
        LeafCircle::TemplatesIn(c) => int_at(row, 5) == Some(c as int),
        LeafCircle::Prompts => text_at(row, 5) == Some("prompt"@),
    }
}

/// The id in the first column, 0 when there is none.
pub open spec fn row_id(row: Seq<ColSpec>) -> int {
    match int_at(row, 0) {
        Some(v) => v,
        None => 0,
    }
}

/// What choosing a leaf does: a template opens, a prompt or a terminal
/// command is copied, and another text is viewed unless it is marked to be
/// copied instead.
pub open spec fn leaf_kind(circle: LeafCircle, row: Seq<ColSpec>) -> ItemKind {
    let id = row_id(row) as i64;
    match circle {
        LeafCircle::TemplatesIn(_) => ItemKind::OpenTemplate(id),
        LeafCircle::TextsIn(_) => if flag_at(row, 6) {
            ItemKind::CopyPrompt(id)
        } else {
            ItemKind::ViewText(id)
        },
        _ => ItemKind::CopyPrompt(id),
    }
}

pub open spec fn leaf_owner(circle: LeafCircle) -> Seq<char> {
    match circle {
        LeafCircle::TemplatesIn(_) => OWNER_TEMPLATE@,
        _ => OWNER_TEXT@,
    }
}

pub open spec fn leaf_entry(circle: LeafCircle, row: Seq<ColSpec>) -> EntrySpec {
    EntrySpec {
        label: text_or_empty(row, 1),
        kind: leaf_kind(circle, row),
        owner_kind: leaf_owner(circle),
        owner_id: decimal(row_id(row)),
    }
}

/// The leaves of the circle, in row order.
pub open spec fn leaf_entries(circle: LeafCircle, rows: Seq<Seq<ColSpec>>) -> Seq<EntrySpec>
    decreases rows.len(),
{
    if rows.len() == 0 {
        Seq::empty()
    } else {
        let rest = leaf_entries(circle, rows.drop_last());
        if leaf_shows(circle, rows.last()) {
            rest.push(leaf_entry(circle, rows.last()))
        } else {
            rest
        }
    }
}

fn shows(circle: LeafCircle, row: &Row) -> (r: bool)
    ensures
        r == leaf_shows(circle, row@),
{
    match circle {
        LeafCircle::TerminalsIn(c) => passes_filter(
            TextFilter::TerminalCommands,
            row.text_or_empty(5).as_str(),
        ) && row.int_at(3) == Some(c),
        LeafCircle::TextsIn(c) => passes_filter(TextFilter::NotPrompts, row.text_or_empty(5).as_str())
            && row.int_at(3) == Some(c),
        LeafCircle::TemplatesIn(c) => row.int_at(5) == Some(c),
        LeafCircle::Prompts => match row.text_at(5) {
            Some(t) => {
                proof {
                    reveal_strlit("prompt");
                }
                str_eq(t.as_str(), "prompt")
            },
            None => false,
        },
    }
}

fn leaf_of(circle: LeafCircle, row: &Row) -> (e: MenuEntry)
    ensures
        e@ == leaf_entry(circle, row@),
{
    let id = match row.int_at(0) {
        Some(v) => v,
        None => 0,
    };
    let kind = match circle {
        LeafCircle::TemplatesIn(_) => ItemKind::OpenTemplate(id),
        LeafCircle::TextsIn(_) => if row.flag_at(6) {
            ItemKind::CopyPrompt(id)
        } else {
            ItemKind::ViewText(id)
        },
        _ => ItemKind::CopyPrompt(id),
    };
    let owner_kind: &'static str = match circle {
        LeafCircle::TemplatesIn(_) => OWNER_TEMPLATE,
        _ => OWNER_TEXT,
    };
    MenuEntry { label: row.text_or_empty(1), kind, owner: (owner_kind, int_to_string(id)) }
}

/// The circle of leaves read from the rows of texts or templates.
pub fn leaf_entries_for(rows: &Vec<Row>, circle: LeafCircle) -> (v: Vec<MenuEntry>)
    ensures
        entries_view(v@) == leaf_entries(circle, rows_view(rows@)),
{
    let ghost all = rows_view(rows@);
    let mut v: Vec<MenuEntry> = Vec::new();
    let mut k: usize = 0;
    while k < rows.len()
        invariant
            k <= rows@.len(),
            all == rows_view(rows@),
            entries_view(v@) =~= leaf_entries(circle, all.take(k as int)),
        decreases rows@.len() - k,
    {
        assert(all.take(k + 1).drop_last() =~= all.take(k as int));
        assert(all.take(k + 1).last() == rows@[k as int]@);
        if shows(circle, &rows[k]) {
            let ghost before = v@;
            let e = leaf_of(circle, &rows[k]);
            v.push(e);
            assert(entries_view(v@) =~= entries_view(before).push(e@));
        }
        k += 1;
    }
    assert(all.take(rows@.len() as int) =~= all);
    v
}

/// Each leaf of a circle is the entry of a row that the circle shows.
pub(crate) proof fn lemma_leaf_from_row(circle: LeafCircle, rows: Seq<Seq<ColSpec>>)
    ensures
        forall|i: int|
            #![trigger leaf_entries(circle, rows)[i]]
            0 <= i < leaf_entries(circle, rows).len() ==> exists|j: int|
                #![trigger rows[j]]
                0 <= j < rows.len() && leaf_shows(circle, rows[j]) && leaf_entries(circle, rows)[i]
                    == leaf_entry(circle, rows[j]),
    decreases rows.len(),
{
    if rows.len() > 0 {
        let front = rows.drop_last();
        lemma_leaf_from_row(circle, front);
        let rest = leaf_entries(circle, front);
        assert forall|i: int|
            #![trigger leaf_entries(circle, rows)[i]]
            0 <= i < leaf_entries(circle, rows).len() implies exists|j: int|
                #![trigger rows[j]]
                0 <= j < rows.len() && leaf_shows(circle, rows[j]) && leaf_entries(circle, rows)[i]
                    == leaf_entry(circle, rows[j]) by {
            if i < rest.len() {
                assert(leaf_entries(circle, rows)[i] == rest[i]);
                let j = choose|j: int|
                    #![trigger front[j]]
                    0 <= j < front.len() && leaf_shows(circle, front[j]) && rest[i] == leaf_entry(
                        circle,
                        front[j],
                    );
                assert(rows[j] == front[j]);
            } else {
                let j = rows.len() - 1;
                assert(rows[j] == rows.last());
            }
        }
    }
}

/// Each row that a circle shows gives one of its leaves.
proof fn lemma_row_in_leaves(circle: LeafCircle, rows: Seq<Seq<ColSpec>>)
    ensures
        forall|j: int|
            #![trigger rows[j]]
            0 <= j < rows.len() && leaf_shows(circle, rows[j]) ==> exists|i: int|
                #![trigger leaf_entries(circle, rows)[i]]
                0 <= i < leaf_entries(circle, rows).len() && leaf_entries(circle, rows)[i]
                    == leaf_entry(circle, rows[j]),
    decreases rows.len(),
{
    if rows.len() > 0 {
        let front = rows.drop_last();
        lemma_row_in_leaves(circle, front);
        let rest = leaf_entries(circle, front);
        let all = leaf_entries(circle, rows);
        assert forall|j: int|
            #![trigger rows[j]]
            0 <= j < rows.len() && leaf_shows(circle, rows[j]) implies exists|i: int|
                #![trigger leaf_entries(circle, rows)[i]]
                0 <= i < leaf_entries(circle, rows).len() && leaf_entries(circle, rows)[i]
                    == leaf_entry(circle, rows[j]) by {
            if j < front.len() {
                assert(rows[j] == front[j]);
                let i = choose|i: int|
                    #![trigger rest[i]]
                    0 <= i < rest.len() && rest[i] == leaf_entry(circle, front[j]);
                assert(all[i] == rest[i]);
            } else {
                assert(rows[j] == rows.last());
                assert(all[rest.len() as int] == leaf_entry(circle, rows[j]));
            }
        }
    }
}

/// The terminal-command circle of category `c` lists exactly the texts stored
/// in category `c` (fourth column) whose type is "terminal command", each by
/// its title, copied when chosen.
pub proof fn law_terminal_circle_holds_its_category(rows: Seq<Seq<ColSpec>>, c: i64)
    ensures
        forall|i: int|
            #![trigger leaf_entries(LeafCircle::TerminalsIn(c), rows)[i]]
            0 <= i < leaf_entries(LeafCircle::TerminalsIn(c), rows).len() ==> exists|j: int|
                #![trigger rows[j]]
                0 <= j < rows.len() && int_at(rows[j], 3) == Some(c as int) && text_or_empty(
                    rows[j],
                    5,
                ) == "terminal command"@ && leaf_entries(LeafCircle::TerminalsIn(c), rows)[i].label
                    == text_or_empty(rows[j], 1) && leaf_entries(
                    LeafCircle::TerminalsIn(c),
                    rows,
                )[i].kind == ItemKind::CopyPrompt(row_id(rows[j]) as i64),
        forall|j: int|
            #![trigger rows[j]]
            0 <= j < rows.len() && int_at(rows[j], 3) == Some(c as int) && text_or_empty(rows[j], 5)
                == "terminal command"@ ==> exists|i: int|
                #![trigger leaf_entries(LeafCircle::TerminalsIn(c), rows)[i]]
                0 <= i < leaf_entries(LeafCircle::TerminalsIn(c), rows).len() && leaf_entries(
                    LeafCircle::TerminalsIn(c),
                    rows,
                )[i].label == text_or_empty(rows[j], 1) && leaf_entries(
                    LeafCircle::TerminalsIn(c),
                    rows,
                )[i].kind == ItemKind::CopyPrompt(row_id(rows[j]) as i64),
{
    lemma_leaf_from_row(LeafCircle::TerminalsIn(c), rows);
    lemma_row_in_leaves(LeafCircle::TerminalsIn(c), rows);
}

/// The text circle of category `c` lists exactly the texts stored in category
/// `c` that are not prompts, each by its title, copied or viewed when chosen.
pub proof fn law_text_circle_holds_its_category(rows: Seq<Seq<ColSpec>>, c: i64)
    ensures
        forall|i: int|
            #![trigger leaf_entries(LeafCircle::TextsIn(c), rows)[i]]
            0 <= i < leaf_entries(LeafCircle::TextsIn(c), rows).len() ==> exists|j: int|
                #![trigger rows[j]]
                0 <= j < rows.len() && int_at(rows[j], 3) == Some(c as int) && text_or_empty(
                    rows[j],
                    5,
                ) != "prompt"@ && leaf_entries(LeafCircle::TextsIn(c), rows)[i].label
                    == text_or_empty(rows[j], 1) && (leaf_entries(LeafCircle::TextsIn(c), rows)[i].kind
                    == ItemKind::CopyPrompt(row_id(rows[j]) as i64) || leaf_entries(
                    LeafCircle::TextsIn(c),
                    rows,
                )[i].kind == ItemKind::ViewText(row_id(rows[j]) as i64)),
        forall|j: int|
            #![trigger rows[j]]
            0 <= j < rows.len() && int_at(rows[j], 3) == Some(c as int) && text_or_empty(rows[j], 5)
                != "prompt"@ ==> exists|i: int|
                #![trigger leaf_entries(LeafCircle::TextsIn(c), rows)[i]]
                0 <= i < leaf_entries(LeafCircle::TextsIn(c), rows).len() && leaf_entries(
                    LeafCircle::TextsIn(c),
                    rows,
                )[i].label == text_or_empty(rows[j], 1),
{
    lemma_leaf_from_row(LeafCircle::TextsIn(c), rows);
    lemma_row_in_leaves(LeafCircle::TextsIn(c), rows);
}

/// The template circle of category `c` lists exactly the templates stored in
/// category `c` (sixth column), each by its title, opened when chosen.
pub proof fn law_template_circle_holds_its_category(rows: Seq<Seq<ColSpec>>, c: i64)
    ensures
        forall|i: int|
            #![trigger leaf_entries(LeafCircle::TemplatesIn(c), rows)[i]]
            0 <= i < leaf_entries(LeafCircle::TemplatesIn(c), rows).len() ==> exists|j: int|
                #![trigger rows[j]]
                0 <= j < rows.len() && int_at(rows[j], 5) == Some(c as int) && leaf_entries(
                    LeafCircle::TemplatesIn(c),
                    rows,
                )[i].label == text_or_empty(rows[j], 1) && leaf_entries(
                    LeafCircle::TemplatesIn(c),
                    rows,
                )[i].kind == ItemKind::OpenTemplate(row_id(rows[j]) as i64),
        forall|j: int|
            #![trigger rows[j]]
            0 <= j < rows.len() && int_at(rows[j], 5) == Some(c as int) ==> exists|i: int|
                #![trigger leaf_entries(LeafCircle::TemplatesIn(c), rows)[i]]
                0 <= i < leaf_entries(LeafCircle::TemplatesIn(c), rows).len() && leaf_entries(
                    LeafCircle::TemplatesIn(c),
                    rows,
                )[i].label == text_or_empty(rows[j], 1) && leaf_entries(
                    LeafCircle::TemplatesIn(c),
                    rows,
                )[i].kind == ItemKind::OpenTemplate(row_id(rows[j]) as i64),
{
    lemma_leaf_from_row(LeafCircle::TemplatesIn(c), rows);
    lemma_row_in_leaves(LeafCircle::TemplatesIn(c), rows);
}

/// The prompt circle lists exactly the texts whose type is "prompt", each by
/// its title, copied when chosen.
pub proof fn law_prompt_circle_holds_the_prompts(rows: Seq<Seq<ColSpec>>)
    ensures
        forall|i: int|
            #![trigger leaf_entries(LeafCircle::Prompts, rows)[i]]
            0 <= i < leaf_entries(LeafCircle::Prompts, rows).len() ==> exists|j: int|
                #![trigger rows[j]]
                0 <= j < rows.len() && text_at(rows[j], 5) == Some("prompt"@) && leaf_entries(
                    LeafCircle::Prompts,
                    rows,
                )[i].label == text_or_empty(rows[j], 1) && leaf_entries(LeafCircle::Prompts, rows)[i].kind
                    == ItemKind::CopyPrompt(row_id(rows[j]) as i64),
        forall|j: int|
            #![trigger rows[j]]
            0 <= j < rows.len() && text_at(rows[j], 5) == Some("prompt"@) ==> exists|i: int|
                #![trigger leaf_entries(LeafCircle::Prompts, rows)[i]]
                0 <= i < leaf_entries(LeafCircle::Prompts, rows).len() && leaf_entries(
                    LeafCircle::Prompts,
                    rows,
                )[i].label == text_or_empty(rows[j], 1) && leaf_entries(LeafCircle::Prompts, rows)[i].kind
                    == ItemKind::CopyPrompt(row_id(rows[j]) as i64),
{
    lemma_leaf_from_row(LeafCircle::Prompts, rows);
    lemma_row_in_leaves(LeafCircle::Prompts, rows);
}

/// Choosing an item raises the counter of the stored thing it stands for:
/// a template opened raises that template's counter, a text copied, viewed or
/// edited that text's, a project that project's, and a circle of a category
/// that category's.
pub proof fn law_choosing_counts_what_was_chosen(t: i64, label: Seq<char>)
    ensures
        counter_target_spec(ItemKind::OpenTemplate(t), label) == CounterSpec::Template(t),
        counter_target_spec(ItemKind::CopyPrompt(t), label) == CounterSpec::Text(t),
        counter_target_spec(ItemKind::ViewText(t), label) == CounterSpec::Text(t),
        counter_target_spec(ItemKind::OpenTextEditor(t), label) == CounterSpec::Text(t),
        counter_target_spec(ItemKind::OpenProjectTerminal(t), label) == CounterSpec::Project(t),
        counter_target_spec(ItemKind::PushTemplatesInCategory(t), label) == CounterSpec::Category(t),
        counter_target_spec(ItemKind::PushPromptsInCategory(t), label) == CounterSpec::Category(t),
        counter_target_spec(ItemKind::PushTextsInCategory(t), label) == CounterSpec::Category(t),
        counter_target_spec(ItemKind::PushTerminalsInCategory(t), label) == CounterSpec::Category(t),
{
}

/// Choosing a leaf raises the counter of the row it was read from: a template
/// leaf that template's, any other leaf that text's.
pub proof fn law_leaf_counts_its_row(circle: LeafCircle, rows: Seq<Seq<ColSpec>>)
    ensures
        forall|i: int|
            #![trigger leaf_entries(circle, rows)[i]]
            0 <= i < leaf_entries(circle, rows).len() ==> exists|j: int|
                #![trigger rows[j]]
                0 <= j < rows.len() && (if circle is TemplatesIn {
                    counter_target_spec(leaf_entries(circle, rows)[i].kind, Seq::empty())
                        == CounterSpec::Template(row_id(rows[j]) as i64)
                } else {
                    counter_target_spec(leaf_entries(circle, rows)[i].kind, Seq::empty())
                        == CounterSpec::Text(row_id(rows[j]) as i64)
                }),
{
    lemma_leaf_from_row(circle, rows);
}


} // verus!
