use vstd::prelude::*;
use crate::text::{lowercase, to_lowercase};

verus! {

/// The full-screen shortcut picker: whose shortcut it sets (e.g.
/// ("main_nav", "Templates")), the label shown for it, the combo pressed
/// so far and the last refusal.
#[derive(Debug)]
pub struct ShortcutPickerState {
    pub owner_kind: &'static str,
    pub owner_id: String,
    pub owner_label: String,
    pub combo: Option<String>,
    pub error: Option<String>,
}

/// What the picker asks for when a frame is done.
#[derive(Debug, PartialEq, Eq)]
pub enum ShortcutPickerAction {
    Nothing,
    Save { owner_kind: &'static str, owner_id: String, combo: String },
    Cancel,
}

/// The keys seen in one frame: the combo of a non-modifier key that went
/// down (if any), escape, a right click, and enter.
pub struct PickerInput {
    pub pressed: Option<String>,
    pub escape: bool,
    pub right_click: bool,
    pub enter: bool,
}

impl ShortcutPickerState {
    /// One frame of the picker: a pressed combo replaces the one shown and
    /// clears the error; escape or a right click cancels; enter saves the
    /// combo shown, and is ignored while there is none.
    pub fn frame(&mut self, input: PickerInput) -> (a: ShortcutPickerAction)
        ensures
            final(self).owner_kind == old(self).owner_kind,
            final(self).owner_id == old(self).owner_id,
            final(self).owner_label == old(self).owner_label,
            input.pressed is Some ==> final(self).combo == input.pressed,
            input.pressed is Some ==> final(self).error is None,
            input.pressed is None ==> final(self).combo == old(self).combo,
            input.pressed is None ==> final(self).error == old(self).error,
            (input.escape || input.right_click) ==> a == ShortcutPickerAction::Cancel,
            !(input.escape || input.right_click) && input.enter && final(self).combo is Some ==> a
                == (ShortcutPickerAction::Save {
                owner_kind: old(self).owner_kind,
                owner_id: old(self).owner_id,
                combo: final(self).combo->0,
            }),
            !(input.escape || input.right_click) && !(input.enter && final(self).combo is Some)
                ==> a == ShortcutPickerAction::Nothing,
    {
        match input.pressed {
            Some(c) => {
                self.combo = Some(c);
                self.error = None;
            },
            None => {},
        }
        if input.escape || input.right_click {
            return ShortcutPickerAction::Cancel;
        }
        if input.enter {
            match &self.combo {
                Some(c) => {
                    return ShortcutPickerAction::Save {
                        owner_kind: self.owner_kind,
                        owner_id: self.owner_id.clone(),
                        combo: c.clone(),
                    };
                },
                None => {},
            }
        }
        ShortcutPickerAction::Nothing
    }
}

/// The modifier names of a combo, in their fixed order, each followed by `+`.
pub open spec fn modifiers_prefix(ctrl: bool, shift: bool, alt: bool, cmd: bool) -> Seq<char> {
    (if ctrl {
        "ctrl+"@
    } else {
        Seq::empty()
    }) + (if shift {
        "shift+"@
    } else {
        Seq::empty()
    }) + (if alt {
        "alt+"@
    } else {
        Seq::empty()
    }) + (if cmd {
        "cmd+"@
    } else {
        Seq::empty()
    })
}

/// How a combo is written: the held modifiers (ctrl, shift, alt, cmd) and
/// the key's name in lower case, joined by `+`.
pub fn build_combo(ctrl: bool, shift: bool, alt: bool, cmd: bool, key_name: &str) -> (s: String)
    ensures
        s@ == modifiers_prefix(ctrl, shift, alt, cmd) + lowercase(key_name@),
{
    let mut s = String::new();
    if ctrl {
        s.append("ctrl+");
    }
    if shift {
        s.append("shift+");
    }
    if alt {
        s.append("alt+");
    }
    if cmd {
        s.append("cmd+");
    }
    let key = to_lowercase(key_name);
    s.append(key.as_str());
    assert(s@ =~= modifiers_prefix(ctrl, shift, alt, cmd) + lowercase(key_name@));
    s
}

/// What the picker shows for the combo: `[ ... ]` while there is none.
pub fn combo_display(combo: &Option<String>) -> (s: String)
    ensures
        (combo matches Some(c) && c@.len() > 0) ==> s@ == "[ "@ + combo->0@ + " ]"@,
        !(combo matches Some(c) && c@.len() > 0) ==> s@ == "[ ... ]"@,
{
    match combo {
        Some(c) => if !c.as_str().is_empty() {
            let mut s = "[ ".to_string();
            s.append(c.as_str());
            s.append(" ]");
            s
        } else {
            "[ ... ]".to_string()
        },
        None => "[ ... ]".to_string(),
    }
}

} // verus!
