use vstd::prelude::*;
use vstd::arithmetic::div_mod::{
    lemma_add_mod_noop_right, lemma_mod_add_multiples_vanish, lemma_mod_self_0, lemma_small_mod,
};

verus! {

/// The values typed for the markers of a template, one per marker name.
pub struct MarkerValues {
    entries: Vec<(String, String)>,
}

/// The value of each name, later entries winning.
pub open spec fn entries_map(entries: Seq<(String, String)>) -> Map<Seq<char>, Seq<char>>
    decreases entries.len(),
{
    if entries.len() == 0 {
        Map::empty()
    } else {
        entries_map(entries.drop_last()).insert(entries.last().0@, entries.last().1@)
    }
}

impl View for MarkerValues {
    type V = Map<Seq<char>, Seq<char>>;

    closed spec fn view(&self) -> Map<Seq<char>, Seq<char>> {
        entries_map(self.entries@)
    }
}

proof fn lemma_entries_map_domain(entries: Seq<(String, String)>, k: Seq<char>)
    ensures
        entries_map(entries).contains_key(k) <==> exists|i: int|
            0 <= i < entries.len() && (#[trigger] entries[i]).0@ == k,
    decreases entries.len(),
{
    if entries.len() > 0 {
        lemma_entries_map_domain(entries.drop_last(), k);
        if entries_map(entries).contains_key(k) && entries.last().0@ != k {
            let i = choose|i: int|
                0 <= i < entries.drop_last().len() && (#[trigger] entries.drop_last()[i]).0@ == k;
            assert(entries[i].0@ == k);
        }
        if exists|i: int| 0 <= i < entries.len() && (#[trigger] entries[i]).0@ == k {
            let i = choose|i: int| 0 <= i < entries.len() && (#[trigger] entries[i]).0@ == k;
            if i < entries.len() - 1 {
                assert(entries.drop_last()[i].0@ == k);
            }
        }
    }
}

proof fn lemma_entries_map_at(entries: Seq<(String, String)>, i: int)
    requires
        0 <= i < entries.len(),
        forall|j: int| 0 <= j < entries.len() && j != i ==> (#[trigger] entries[j]).0@ != entries[i].0@,
    ensures
        entries_map(entries).contains_key(entries[i].0@),
        entries_map(entries)[entries[i].0@] == entries[i].1@,
    decreases entries.len(),
{
    if i < entries.len() - 1 {
        assert forall|j: int|
            0 <= j < entries.drop_last().len() && j != i implies (#[trigger] entries.drop_last()[j]).0@
            != entries.drop_last()[i].0@ by {
            assert(entries.drop_last()[j] == entries[j]);
        }
        lemma_entries_map_at(entries.drop_last(), i);
    }
}

impl MarkerValues {
    /// No name is there twice.
    #[verifier::type_invariant]
    spec fn names_distinct(self) -> bool {
        forall|i: int, j: int|
            0 <= i < j < self.entries@.len() ==> (#[trigger] self.entries@[i]).0@
                != (#[trigger] self.entries@[j]).0@
    }

    pub fn new() -> (m: Self)
        ensures
            m@ == Map::<Seq<char>, Seq<char>>::empty(),
    {
        MarkerValues { entries: Vec::new() }
    }

    fn find(&self, name: &str) -> (r: Option<usize>)
        ensures
            match r {
                Some(i) => i < self.entries@.len() && self.entries@[i as int].0@ == name@,
                None => forall|j: int|
                    0 <= j < self.entries@.len() ==> (#[trigger] self.entries@[j]).0@ != name@,
            },
    {
        let target = name.to_string();
        let mut i: usize = 0;
        while i < self.entries.len()
            invariant
                i <= self.entries@.len(),
                target@ == name@,
                forall|j: int| 0 <= j < i ==> (#[trigger] self.entries@[j]).0@ != name@,
            decreases self.entries@.len() - i,
        {
            if self.entries[i].0 == target {
                return Some(i);
            }
            i += 1;
        }
        None
    }

    /// The value typed for a marker, if any.
    pub fn get(&self, name: &str) -> (r: Option<String>)
        ensures
            r is Some <==> self@.contains_key(name@),
            r matches Some(v) ==> v@ == self@[name@],
    {
        proof {
            use_type_invariant(self);
            lemma_entries_map_domain(self.entries@, name@);
        }
        match self.find(name) {
            Some(i) => {
                proof {
                    lemma_entries_map_at(self.entries@, i as int);
                }
                Some(self.entries[i].1.clone())
            },
            None => None,
        }
    }

    /// The value typed for a marker, empty when none was.
    pub fn value_or_empty(&self, name: &str) -> (v: String)
        ensures
            self@.contains_key(name@) ==> v@ == self@[name@],
            !self@.contains_key(name@) ==> v@ == Seq::<char>::empty(),
    {
        match self.get(name) {
            Some(v) => v,
            None => String::new(),
        }
    }

    /// Sets the value of a marker.
    pub fn set(&mut self, name: String, value: String)
        ensures
            final(self)@ == old(self)@.insert(name@, value@),
    {
        proof {
            use_type_invariant(&*self);
        }
        let ghost before = self.entries@;
        match self.find(name.as_str()) {
            Some(i) => {
                let mut entries: Vec<(String, String)> = Vec::new();
                std::mem::swap(&mut entries, &mut self.entries);
                proof {
                    lemma_entries_map_domain(before, name@);
                }
                entries.set(i, (name, value));
                proof {
                    let after = entries@;
                    assert(after == before.update(i as int, after[i as int]));
                    assert forall|a: int, b: int|
                        0 <= a < b < after.len() implies (#[trigger] after[a]).0@
                        != (#[trigger] after[b]).0@ by {
                        if a != i && b != i {
                            assert(before[a].0@ != before[b].0@);
                        } else if a == i {
                            assert(before[a].0@ != before[b].0@);
                        } else {
                            assert(before[a].0@ != before[b].0@);
                        }
                    }
                    assert forall|k: Seq<char>| #[trigger] entries_map(after).contains_key(k)
                        == entries_map(before).insert(name@, value@).contains_key(k) by {
                        lemma_entries_map_domain(after, k);
                        lemma_entries_map_domain(before, k);
                        if exists|j: int| 0 <= j < before.len() && (#[trigger] before[j]).0@ == k {
                            let j = choose|j: int|
                                0 <= j < before.len() && (#[trigger] before[j]).0@ == k;
                            if j == i {
                                assert(after[i as int].0@ == k);
                            } else {
                                assert(after[j].0@ == k);
                            }
                        }
                        if exists|j: int| 0 <= j < after.len() && (#[trigger] after[j]).0@ == k {
                            let j = choose|j: int| 0 <= j < after.len() && (#[trigger] after[j]).0@ == k;
                            if j != i {
                                assert(before[j].0@ == k);
                            }
                        }
                    }
                    assert forall|k: Seq<char>| #[trigger] entries_map(after).contains_key(k)
                        implies entries_map(after)[k] == entries_map(before).insert(
                        name@,
                        value@,
                    )[k] by {
                        lemma_entries_map_domain(after, k);
                        let j = choose|j: int| 0 <= j < after.len() && (#[trigger] after[j]).0@ == k;
                        lemma_entries_map_at(after, j);
                        if j != i {
                            assert(before[j] == after[j]);
                            lemma_entries_map_at(before, j);
                        }
                    }
                    assert(entries_map(after) =~= entries_map(before).insert(name@, value@));
                }
                self.entries = entries;
            },
            None => {
                let mut entries: Vec<(String, String)> = Vec::new();
                std::mem::swap(&mut entries, &mut self.entries);
                entries.push((name, value));
                proof {
                    let after = entries@;
                    assert(after.drop_last() =~= before);
                    assert forall|a: int, b: int|
                        0 <= a < b < after.len() implies (#[trigger] after[a]).0@
                        != (#[trigger] after[b]).0@ by {
                        if b < before.len() {
                            assert(before[a].0@ != before[b].0@);
                        } else {
                            assert(before[a].0@ != name@);
                        }
                    }
                }
                self.entries = entries;
            },
        }
    }
}

/// The values after the markers were read again from the content: one per
/// marker, each keeping what was typed for it before, empty otherwise; no
/// other name stays.
pub open spec fn values_for_markers(
    old_values: Map<Seq<char>, Seq<char>>,
    markers: Seq<Seq<char>>,
) -> Map<Seq<char>, Seq<char>> {
    Map::new(
        |k: Seq<char>| markers.contains(k),
        |k: Seq<char>|
            if old_values.contains_key(k) {
                old_values[k]
            } else {
                Seq::empty()
            },
    )
}

pub fn values_for(old_values: &MarkerValues, markers: &Vec<String>) -> (m: MarkerValues)
    ensures
        m@ == values_for_markers(old_values@, markers@.map_values(|s: String| s@)),
{
    let ghost mv = markers@.map_values(|s: String| s@);
    let mut m = MarkerValues::new();
    let mut k: usize = 0;
    while k < markers.len()
        invariant
            k <= markers@.len(),
            mv == markers@.map_values(|s: String| s@),
            m@ =~= values_for_markers(old_values@, mv.take(k as int)),
        decreases markers@.len() - k,
    {
        let v = old_values.value_or_empty(markers[k].as_str());
        m.set(markers[k].clone(), v);
        proof {
            assert(mv.take(k + 1) =~= mv.take(k as int).push(mv[k as int]));
            assert forall|key: Seq<char>| #[trigger] mv.take(k + 1).contains(key) <==> (mv.take(
                k as int,
            ).contains(key) || key == mv[k as int]) by {
                if mv.take(k + 1).contains(key) {
                    let j = choose|j: int| 0 <= j < k + 1 && #[trigger] mv.take(k + 1)[j] == key;
                    if j < k {
                        assert(mv.take(k as int)[j] == key);
                    }
                }
                if mv.take(k as int).contains(key) {
                    let j = choose|j: int| 0 <= j < k && #[trigger] mv.take(k as int)[j] == key;
                    assert(mv.take(k + 1)[j] == key);
                }
                if key == mv[k as int] {
                    assert(mv.take(k + 1)[k as int] == key);
                }
            }
        }
        k += 1;
    }
    assert(mv.take(markers@.len() as int) =~= mv);
    m
}

/// The template-filling screen of the circle menu: the template, the values
/// typed for its markers, the field that has the focus and the field that
/// is to get it on the next frame.
pub struct FillTemplateState {
    pub id: i64,
    pub title: String,
    pub content: String,
    pub instructions: String,
    pub example: String,
    pub values: MarkerValues,
    pub focused_index: Option<usize>,
    pub pending_focus: Option<usize>,
}

impl Default for FillTemplateState {
    fn default() -> (s: Self)
        ensures
            s.id == 0,
            s.title@ == Seq::<char>::empty(),
            s.content@ == Seq::<char>::empty(),
            s.instructions@ == Seq::<char>::empty(),
            s.example@ == Seq::<char>::empty(),
            s.values@ == Map::<Seq<char>, Seq<char>>::empty(),
            s.focused_index is None,
            s.pending_focus is None,
    {
        FillTemplateState {
            id: 0,
            title: String::new(),
            content: String::new(),
            instructions: String::new(),
            example: String::new(),
            values: MarkerValues::new(),
            focused_index: None,
            pending_focus: None,
        }
    }
}

/// A key that moves the focus between the marker fields.
#[derive(Clone, Copy, PartialEq, Eq, Structural, Debug)]
pub enum FocusMove {
    Stay,
    Down,
    Up,
}

/// Where the focus goes from field `cur` among `len` fields: down wraps to
/// the first field, up wraps to the last.
pub open spec fn moved_focus(cur: int, len: int, m: FocusMove) -> int {
    match m {
        FocusMove::Stay => cur,
        FocusMove::Down => (cur + 1) % len,
        FocusMove::Up => (cur + len - 1) % len,
    }
}

fn next_focus(cur: usize, len: usize, m: FocusMove) -> (n: usize)
    requires
        len > 0,
        m != FocusMove::Stay,
    ensures
        n == moved_focus(cur as int, len as int, m),
        n < len,
{
    let c = cur % len;
    proof {
        lemma_add_mod_noop_right(1, cur as int, len as int);
        lemma_add_mod_noop_right(len - 1, cur as int, len as int);
        lemma_mod_self_0(len as int);
    }
    match m {
        FocusMove::Down => {
            if c + 1 == len {
                0
            } else {
                proof {
                    lemma_small_mod((c + 1) as nat, len as nat);
                }
                c + 1
            }
        },
        _ => {
            if c == 0 {
                proof {
                    lemma_small_mod((len - 1) as nat, len as nat);
                }
                len - 1
            } else {
                proof {
                    lemma_mod_add_multiples_vanish(c - 1, len as int);
                    lemma_small_mod((c - 1) as nat, len as nat);
                    assert(len - 1 + c == len + (c - 1));
                }
                c - 1
            }
        },
    }
}

/// The focus (focused field, field to be focused) after one frame over
/// `len` fields, when there are any: the first field gets the focus when
/// nothing has it or is to get it, and a move starts from the focused field
/// (the first when none is).
pub open spec fn focus_after(
    focused: Option<usize>,
    pending: Option<usize>,
    len: usize,
    m: FocusMove,
) -> Option<(Option<usize>, Option<usize>)> {
    if len == 0 {
        None
    } else {
        let (f, p) = if focused is None && pending is None {
            (Some(0usize), Some(0usize))
        } else {
            (focused, pending)
        };
        if m == FocusMove::Stay {
            Some((f, p))
        } else {
            let cur = match f {
                Some(i) => i as int,
                None => 0,
            };
            let n = moved_focus(cur, len as int, m) as usize;
            Some((Some(n), Some(n)))
        }
    }
}

impl FillTemplateState {
    /// Takes the markers of the content anew: the values follow the markers
    /// and the focus is forgotten.
    pub fn reset_values_for_markers(&mut self, markers: &Vec<String>)
        ensures
            final(self).values@ == values_for_markers(
                old(self).values@,
                markers@.map_values(|s: String| s@),
            ),
            final(self).focused_index is None,
            final(self).pending_focus is None,
            final(self).id == old(self).id,
            final(self).title == old(self).title,
            final(self).content == old(self).content,
            final(self).instructions == old(self).instructions,
            final(self).example == old(self).example,
    {
        self.values = values_for(&self.values, markers);
        self.focused_index = None;
        self.pending_focus = None;
    }

    /// One frame of keyboard focus over `marker_count` fields: the first
    /// field gets the focus when nothing has it, and the arrow keys move it.
    pub fn move_focus(&mut self, marker_count: usize, m: FocusMove)
        ensures
            marker_count == 0 ==> final(self).focused_index == old(self).focused_index,
            marker_count == 0 ==> final(self).pending_focus == old(self).pending_focus,
            focus_after(old(self).focused_index, old(self).pending_focus, marker_count, m) matches Some(p) ==> final(self).focused_index == p.0 && final(self).pending_focus == p.1,
            final(self).values == old(self).values,
            final(self).content == old(self).content,
    {
        if marker_count == 0 {
            return;
        }
        if self.focused_index.is_none() && self.pending_focus.is_none() {
            self.focused_index = Some(0);
            self.pending_focus = Some(0);
        }
        if m != FocusMove::Stay {
            let cur = match self.focused_index {
                Some(i) => i,
                None => 0,
            };
            let next = next_focus(cur, marker_count, m);
            self.focused_index = Some(next);
            self.pending_focus = Some(next);
        }
    }

    /// Whether field `idx` is to be given the focus now; the request is then dropped.
    pub fn take_pending_focus(&mut self, idx: usize) -> (r: bool)
        ensures
            r == (old(self).pending_focus == Some(idx)),
            r ==> final(self).pending_focus is None,
            !r ==> final(self).pending_focus == old(self).pending_focus,
            final(self).focused_index == old(self).focused_index,
            final(self).values == old(self).values,
    {
        if self.pending_focus == Some(idx) {
            self.pending_focus = None;
            true
        } else {
            false
        }
    }
}

/// What the filling screen asks for: close, or copy the filled-in text.
#[derive(Debug, PartialEq, Eq)]
pub enum FillTemplateAction {
    Nothing,
    Back,
    Confirm(String),
}

} // verus!
