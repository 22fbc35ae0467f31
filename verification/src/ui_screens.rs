pub mod disabled;
pub mod edit_text;
pub mod final_nav_view_or_edit_modals;
pub mod json;
pub mod main_menu;
pub mod pages;
pub mod projects;
pub mod templates;

use vstd::prelude::*;
use crate::text::concat3;

verus! {

/// The button a confirmation dialog was closed with, or `Pending` while it is open.
#[derive(Clone, Copy, PartialEq, Eq, Structural, Debug)]
pub enum PopupAnswer {
    Pending,
    Confirm,
    Cancel,
    Replace,
    KeepBoth,
    Close,
}

/// A field as a confirmation dialog lists it: `label: value`.
pub open spec fn line(label: Seq<char>, value: Seq<char>) -> Seq<char> {
    label + ": "@ + value
}

/// The line of an optional field, which is left out while it is empty.
pub open spec fn optional_line(label: Seq<char>, value: Seq<char>) -> Seq<Seq<char>> {
    if value.len() == 0 {
        Seq::empty()
    } else {
        seq![line(label, value)]
    }
}

pub fn field_line(label: &str, value: &str) -> (s: String)
    ensures
        s@ == line(label@, value@),
{
    concat3(label, ": ", value)
}

/// Appends the line of an optional field unless it is empty.
pub fn push_optional_line(lines: &mut Vec<String>, label: &str, value: &str)
    ensures
        final(lines)@.map_values(|s: String| s@) == old(lines)@.map_values(|s: String| s@)
            + optional_line(label@, value@),
{
    let ghost before = lines@;
    if !value.is_empty() {
        let l = field_line(label, value);
        lines.push(l);
        assert(lines@.map_values(|s: String| s@) =~= before.map_values(|s: String| s@).push(l@));
    } else {
        assert(lines@.map_values(|s: String| s@) =~= before.map_values(|s: String| s@));
    }
}

} // verus!
