use vstd::prelude::*;
use crate::text::str_eq;

verus! {

/// What choosing an item of the circle menu does.
#[derive(Clone, Copy, PartialEq, Eq, Structural, Debug)]
pub enum ItemKind {
    PushTemplatesCategories,
    PushTemplatesInCategory(i64),
    OpenTemplate(i64),
    PushPromptCategories,
    PushPromptsInCategory(i64),
    CopyPrompt(i64),
    PushTextCategories,
    PushTextsInCategory(i64),
    PushTerminalCategories,
    PushTerminalsInCategory(i64),
    OpenTextEditor(i64),
    ViewText(i64),
    PushProjects,
    OpenProjectTerminal(i64),
    EditProject(i64),
    NewPlus,
    Nothing,
}

/// One item of a circle: its label, what it does, how often it was chosen,
/// its keyboard shortcut, and what it is in the `shortcuts` table, e.g.
/// ("main_nav", "Templates").
#[derive(Debug)]
pub struct MenuItem {
    pub label: String,
    pub kind: ItemKind,
    pub counter: u32,
    pub shortcut: Option<String>,
    pub owner: (&'static str, String),
}

impl Clone for MenuItem {
    fn clone(&self) -> (r: Self)
        ensures
            r == *self,
    {
        let shortcut = match &self.shortcut {
            Some(s) => Some(s.clone()),
            None => None,
        };
        MenuItem {
            label: self.label.clone(),
            kind: self.kind,
            counter: self.counter,
            shortcut,
            owner: (self.owner.0, self.owner.1.clone()),
        }
    }
}

/// How a circle was built, so that it can be built again from the database.
#[derive(Clone, Copy, PartialEq, Eq, Structural, Debug)]
pub enum RebuildKind {
    Root,
    TemplatesCategories,
    TemplatesInCategory(i64),
    Prompts,
    TextCategories,
    TextsInCategory(i64),
    TerminalCategories,
    TerminalsInCategory(i64),
    Projects,
}

/// The circles the user has descended through, the root first and the one on
/// screen last.
pub struct MenuStack {
    pub frames: Vec<(RebuildKind, Vec<MenuItem>)>,
}

/// A circle as a value: how it was built and its items.
pub type Frame = (RebuildKind, Seq<MenuItem>);

impl View for MenuStack {
    type V = Seq<Frame>;

    open spec fn view(&self) -> Seq<Frame> {
        self.frames@.map_values(|f: (RebuildKind, Vec<MenuItem>)| (f.0, f.1@))
    }
}

/// The items of the circle on screen; none when there is no circle.
pub open spec fn top_items(s: Seq<Frame>) -> Seq<MenuItem> {
    if s.len() > 0 {
        s.last().1
    } else {
        Seq::empty()
    }
}

/// Going back one circle: the root circle is never left.
pub open spec fn popped(s: Seq<Frame>) -> Seq<Frame> {
    if s.len() > 1 {
        s.drop_last()
    } else {
        s
    }
}

/// The circle on screen with its items replaced; nothing changes without a circle.
pub open spec fn with_top_items(s: Seq<Frame>, items: Seq<MenuItem>) -> Seq<Frame> {
    if s.len() > 0 {
        s.update(s.len() - 1, (s.last().0, items))
    } else {
        s
    }
}

/// Back to the root circle (or nothing, when there is none).
pub open spec fn root_only(s: Seq<Frame>) -> Seq<Frame> {
    if s.len() > 1 {
        s.subrange(0, 1)
    } else {
        s
    }
}

impl MenuStack {
    pub fn new() -> (s: Self)
        ensures
            s@ == Seq::<Frame>::empty(),
    {
        let s = MenuStack { frames: Vec::new() };
        assert(s@ =~= Seq::<Frame>::empty());
        s
    }
}

/// Starts over with one root circle holding `items`.
pub fn init_menu(stack: &mut MenuStack, items: Vec<MenuItem>)
    ensures
        final(stack)@ == seq![(RebuildKind::Root, items@)],
{
    let ghost iv = items@;
    stack.frames.clear();
    stack.frames.push((RebuildKind::Root, items));
    assert(stack@ =~= seq![(RebuildKind::Root, iv)]);
}

/// Descends into a new circle.
pub fn push_menu(stack: &mut MenuStack, kind: RebuildKind, items: Vec<MenuItem>)
    ensures
        final(stack)@ == old(stack)@.push((kind, items@)),
{
    let ghost iv = items@;
    stack.frames.push((kind, items));
    assert(stack@ =~= old(stack)@.push((kind, iv)));
}

pub fn current_rebuild_kind(stack: &MenuStack) -> (k: Option<RebuildKind>)
    ensures
        k == (if stack@.len() > 0 {
            Some(stack@.last().0)
        } else {
            None
        }),
{
    let n = stack.frames.len();
    if n > 0 {
        Some(stack.frames[n - 1].0)
    } else {
        None
    }
}

/// Replaces the items of the circle on screen, keeping how it was built.
pub fn set_top_items(stack: &mut MenuStack, items: Vec<MenuItem>)
    ensures
        final(stack)@ == with_top_items(old(stack)@, items@),
{
    let n = stack.frames.len();
    if n > 0 {
        let ghost iv = items@;
        let kind = stack.frames[n - 1].0;
        stack.frames.set(n - 1, (kind, items));
        assert(stack@ =~= with_top_items(old(stack)@, iv));
    }
}

/// Goes back one circle; answers whether it did, which it does not from the root.
pub fn pop_menu(stack: &mut MenuStack) -> (popped_one: bool)
    ensures
        popped_one == (old(stack)@.len() > 1),
        final(stack)@ == popped(old(stack)@),
{
    if stack.frames.len() > 1 {
        stack.frames.pop();
        assert(stack@ =~= old(stack)@.drop_last());
        true
    } else {
        false
    }
}

/// Goes back to the root circle.
pub fn pop_to_root(stack: &mut MenuStack)
    ensures
        final(stack)@ == root_only(old(stack)@),
{
    if stack.frames.len() > 1 {
        stack.frames.truncate(1);
        assert(stack@ =~= old(stack)@.subrange(0, 1));
    }
}

pub fn depth(stack: &MenuStack) -> (d: usize)
    ensures
        d == stack@.len(),
{
    stack.frames.len()
}

/// A copy of the items of the circle on screen.
pub fn current_items(stack: &MenuStack) -> (items: Vec<MenuItem>)
    ensures
        items@ == top_items(stack@),
{
    let n = stack.frames.len();
    if n == 0 {
        return Vec::new();
    }
    let top = &stack.frames[n - 1].1;
    let mut out: Vec<MenuItem> = Vec::new();
    let m = top.len();
    let mut i: usize = 0;
    while i < m
        invariant
            m == top@.len(),
            i <= m,
            out@ == top@.subrange(0, i as int),
        decreases m - i,
    {
        out.push(top[i].clone());
        assert(out@ =~= top@.subrange(0, i + 1));
        i += 1;
    }
    assert(out@ =~= top@);
    out
}

/// The labels of the items of the circle on screen, in order.
pub fn current_labels(stack: &MenuStack) -> (labels: Vec<String>)
    ensures
        labels@.map_values(|l: String| l@) == top_items(stack@).map_values(|it: MenuItem| it.label@),
{
    let items = current_items(stack);
    let mut labels: Vec<String> = Vec::new();
    let m = items.len();
    let mut i: usize = 0;
    while i < m
        invariant
            m == items@.len(),
            i <= m,
            items@ == top_items(stack@),
            labels@.len() == i,
            forall|j: int| 0 <= j < i ==> #[trigger] labels@[j]@ == items@[j].label@,
        decreases m - i,
    {
        labels.push(items[i].label.clone());
        i += 1;
    }
    assert(labels@.map_values(|l: String| l@) =~= items@.map_values(|it: MenuItem| it.label@));
    labels
}

/// How each circle on the stack was built, root first.
pub fn stack_kinds(stack: &MenuStack) -> (kinds: Vec<RebuildKind>)
    ensures
        kinds@ == stack@.map_values(|f: Frame| f.0),
{
    let mut kinds: Vec<RebuildKind> = Vec::new();
    let n = stack.frames.len();
    let mut i: usize = 0;
    while i < n
        invariant
            n == stack@.len(),
            i <= n,
            kinds@ == stack@.subrange(0, i as int).map_values(|f: Frame| f.0),
        decreases n - i,
    {
        kinds.push(stack.frames[i].0);
        assert(kinds@ =~= stack@.subrange(0, i + 1).map_values(|f: Frame| f.0));
        i += 1;
    }
    assert(stack@.subrange(0, n as int) =~= stack@);
    kinds
}

/// Flags that the screens set for one another during a frame.
pub struct UiFlags {
    pub modal_open: bool,
    pub disable_rightclick: bool,
}

pub fn set_modal_open(flags: &mut UiFlags, open: bool)
    ensures
        final(flags).modal_open == open,
        final(flags).disable_rightclick == old(flags).disable_rightclick,
{
    flags.modal_open = open;
}

pub fn modal_open(flags: &UiFlags) -> (b: bool)
    ensures
        b == flags.modal_open,
{
    flags.modal_open
}

pub fn set_disable_rightclick(flags: &mut UiFlags, v: bool)
    ensures
        final(flags).disable_rightclick == v,
        final(flags).modal_open == old(flags).modal_open,
{
    flags.disable_rightclick = v;
}

pub fn disable_rightclick(flags: &UiFlags) -> (b: bool)
    ensures
        b == flags.disable_rightclick,
{
    flags.disable_rightclick
}

/// Going back never leaves the root circle: a stack with a circle keeps one.
pub proof fn law_pop_keeps_root(s: Seq<Frame>)
    requires
        s.len() >= 1,
    ensures
        popped(s).len() >= 1,
        popped(s)[0] == s[0],
{
}

/// Going back from a circle just descended into restores the stack as it was.
pub proof fn law_push_then_pop(s: Seq<Frame>, f: Frame)
    requires
        s.len() >= 1,
    ensures
        popped(s.push(f)) == s,
{
    assert(s.push(f).drop_last() =~= s);
}

/// The circle on screen after descending holds exactly the items pushed.
pub proof fn law_push_shows_items(s: Seq<Frame>, kind: RebuildKind, items: Seq<MenuItem>)
    ensures
        top_items(s.push((kind, items))) == items,
        s.push((kind, items)).len() == s.len() + 1,
{
}

/// Replacing the items on screen changes neither the depth nor any circle below.
pub proof fn law_set_top_keeps_rest(s: Seq<Frame>, items: Seq<MenuItem>)
    requires
        s.len() >= 1,
    ensures
        with_top_items(s, items).len() == s.len(),
        top_items(with_top_items(s, items)) == items,
        forall|i: int| 0 <= i < s.len() - 1 ==> #[trigger] with_top_items(s, items)[i] == s[i],
        with_top_items(s, items).last().0 == s.last().0,
{
}

/// Going back to the root from any depth leaves exactly the root circle.
pub proof fn law_pop_to_root(s: Seq<Frame>)
    requires
        s.len() >= 1,
    ensures
        root_only(s) == seq![s[0]],
        popped(root_only(s)) == root_only(s),
{
    assert(root_only(s) =~= seq![s[0]]);
}

/// The item has shortcut `combo`.
pub open spec fn has_shortcut(item: MenuItem, combo: Seq<char>) -> bool {
    item.shortcut matches Some(s) && s@ == combo
}

/// The item is the one that `(owner_kind, owner_id)` names in the shortcuts table.
pub open spec fn is_owned_by(item: MenuItem, owner_kind: Seq<char>, owner_id: Seq<char>) -> bool {
    item.owner.0@ == owner_kind && item.owner.1@ == owner_id
}

fn shortcut_is(item: &MenuItem, combo: &str) -> (r: bool)
    ensures
        r == has_shortcut(*item, combo@),
{
    match &item.shortcut {
        Some(s) => str_eq(s.as_str(), combo),
        None => false,
    }
}

/// Whether another item of the circle already uses `combo`; the item that
/// `(owner_kind, owner_id)` names does not count, so keeping its own combo is fine.
pub fn combo_taken(items: &Vec<MenuItem>, owner_kind: &str, owner_id: &str, combo: &str) -> (r:
    bool)
    ensures
        r == exists|i: int|
            0 <= i < items@.len() && !is_owned_by(#[trigger] items@[i], owner_kind@, owner_id@)
                && has_shortcut(items@[i], combo@),
{
    let n = items.len();
    let mut i: usize = 0;
    while i < n
        invariant
            n == items@.len(),
            i <= n,
            forall|j: int|
                0 <= j < i ==> !(!is_owned_by(#[trigger] items@[j], owner_kind@, owner_id@)
                    && has_shortcut(items@[j], combo@)),
        decreases n - i,
    {
        let own = str_eq(items[i].owner.0, owner_kind) && str_eq(items[i].owner.1.as_str(), owner_id);
        if !own && shortcut_is(&items[i], combo) {
            return true;
        }
        i += 1;
    }
    false
}

/// The first item of the circle whose shortcut is `combo`.
pub fn find_combo(items: &Vec<MenuItem>, combo: &str) -> (r: Option<usize>)
    ensures
        match r {
            Some(i) => i < items@.len() && has_shortcut(items@[i as int], combo@) && forall|j: int|
                0 <= j < i ==> !has_shortcut(#[trigger] items@[j], combo@),
            None => forall|j: int| 0 <= j < items@.len() ==> !has_shortcut(#[trigger] items@[j], combo@),
        },
{
    let n = items.len();
    let mut i: usize = 0;
    while i < n
        invariant
            n == items@.len(),
            i <= n,
            forall|j: int| 0 <= j < i ==> !has_shortcut(#[trigger] items@[j], combo@),
        decreases n - i,
    {
        if shortcut_is(&items[i], combo) {
            return Some(i);
        }
        i += 1;
    }
    None
}

} // verus!
