pub mod example;

use vstd::prelude::*;
use crate::helpers::import::ImportMode;
use crate::parsed::{NewTemplate, NewText, ParsedPayload, PayloadSpec, payloads_view};
use crate::text::{concat3, str_eq};
use crate::ui_screens::PopupAnswer;

verus! {

/// What the JSON screen is set to do with the pasted text.
#[derive(Clone, Copy, PartialEq, Eq, Structural, Debug)]
pub enum JsonMode {
    Import,
    Export,
    Validate,
}

impl JsonMode {
    /// Import and export have a button that does them; validating has none.
    pub fn has_do_button(self) -> (b: bool)
        ensures
            b == (self == JsonMode::Import || self == JsonMode::Export),
    {
        match self {
            JsonMode::Import | JsonMode::Export => true,
            JsonMode::Validate => false,
        }
    }

    /// The text of that button.
    pub fn do_label(self) -> (s: &'static str)
        ensures
            self == JsonMode::Import ==> s@ == "Import"@,
            self == JsonMode::Export ==> s@ == "Export"@,
            self == JsonMode::Validate ==> s@ == ""@,
    {
        match self {
            JsonMode::Import => "Import",
            JsonMode::Export => "Export",
            JsonMode::Validate => "",
        }
    }

    /// Import and export offer to copy the prompt that asks for such JSON.
    pub fn has_prompt(self) -> (b: bool)
        ensures
            b == (self == JsonMode::Import || self == JsonMode::Export),
    {
        match self {
            JsonMode::Import | JsonMode::Export => true,
            JsonMode::Validate => false,
        }
    }
}

/// The JSON screen: its mode, the pasted text, and the import dialog (the
/// parsed blocks with the titles that are already stored) or the parse error.
pub struct JsonState {
    pub mode: Option<JsonMode>,
    pub content: String,
    pub popup_payloads: Option<Vec<ParsedPayload>>,
    pub popup_collisions: Vec<String>,
    pub popup_error: Option<String>,
}

impl Default for JsonState {
    fn default() -> (s: Self)
        ensures
            s.mode == Some(JsonMode::Import),
            s.content@ == Seq::<char>::empty(),
            s.popup_payloads is None,
            s.popup_collisions@.len() == 0,
            s.popup_error is None,
    {
        JsonState {
            mode: Some(JsonMode::Import),
            content: String::new(),
            popup_payloads: None,
            popup_collisions: Vec::new(),
            popup_error: None,
        }
    }
}

/// What the JSON screen asks for.
#[derive(Debug)]
pub enum JsonAction {
    Nothing,
    Back,
    Example,
    Do,
    ImportConfirmed(Vec<ParsedPayload>, ImportMode),
}

/// A title that an import checks for: in `texts` or in `templates`.
#[derive(Debug)]
pub struct TitleCheck {
    pub table: &'static str,
    pub title: String,
}

pub open spec fn text_checks(ts: Seq<NewText>) -> Seq<(Seq<char>, Seq<char>)> {
    ts.map_values(|t: NewText| ("texts"@, t.title@))
}

pub open spec fn template_checks(ts: Seq<NewTemplate>) -> Seq<(Seq<char>, Seq<char>)> {
    ts.map_values(|t: NewTemplate| ("templates"@, t.title@))
}

/// The titles to look up, block after block: every text title in `texts`,
/// every template title in `templates`; categories are not checked.
pub open spec fn title_checks_spec(ps: Seq<ParsedPayload>) -> Seq<(Seq<char>, Seq<char>)>
    decreases ps.len(),
{
    if ps.len() == 0 {
        Seq::empty()
    } else {
        title_checks_spec(ps.drop_last()) + match ps.last() {
            ParsedPayload::NewTexts(ts) => text_checks(ts@),
            ParsedPayload::NewTemplates(ts) => template_checks(ts@),
            ParsedPayload::NewCategories(_) => Seq::empty(),
        }
    }
}

pub open spec fn checks_view(v: Seq<TitleCheck>) -> Seq<(Seq<char>, Seq<char>)> {
    v.map_values(|c: TitleCheck| (c.table@, c.title@))
}

pub fn title_checks(payloads: &Vec<ParsedPayload>) -> (v: Vec<TitleCheck>)
    ensures
        checks_view(v@) == title_checks_spec(payloads@),
{
    let mut v: Vec<TitleCheck> = Vec::new();
    let mut k: usize = 0;
    while k < payloads.len()
        invariant
            k <= payloads@.len(),
            checks_view(v@) =~= title_checks_spec(payloads@.take(k as int)),
        decreases payloads@.len() - k,
    {
        assert(payloads@.take(k + 1).drop_last() =~= payloads@.take(k as int));
        assert(payloads@.take(k + 1).last() == payloads@[k as int]);
        let ghost before = checks_view(v@);
        match &payloads[k] {
            ParsedPayload::NewTexts(items) => {
                let mut j: usize = 0;
                while j < items.len()
                    invariant
                        j <= items@.len(),
                        checks_view(v@) =~= before + text_checks(items@.take(j as int)),
                    decreases items@.len() - j,
                {
                    let ghost b = checks_view(v@);
                    let c = TitleCheck { table: "texts", title: items[j].title.clone() };
                    v.push(c);
                    assert(checks_view(v@) =~= b.push((c.table@, c.title@)));
                    assert(items@.take(j + 1) =~= items@.take(j as int).push(items@[j as int]));
                    j += 1;
                }
                assert(items@.take(items@.len() as int) =~= items@);
            },
            ParsedPayload::NewTemplates(items) => {
                let mut j: usize = 0;
                while j < items.len()
                    invariant
                        j <= items@.len(),
                        checks_view(v@) =~= before + template_checks(items@.take(j as int)),
                    decreases items@.len() - j,
                {
                    let ghost b = checks_view(v@);
                    let c = TitleCheck { table: "templates", title: items[j].title.clone() };
                    v.push(c);
                    assert(checks_view(v@) =~= b.push((c.table@, c.title@)));
                    assert(items@.take(j + 1) =~= items@.take(j as int).push(items@[j as int]));
                    j += 1;
                }
                assert(items@.take(items@.len() as int) =~= items@);
            },
            ParsedPayload::NewCategories(_) => {},
        }
        k += 1;
    }
    assert(payloads@.take(payloads@.len() as int) =~= payloads@);
    v
}

/// How a colliding title is recorded: `text:` or `template:` and the title.
pub open spec fn collision_key_spec(table: Seq<char>, title: Seq<char>) -> Seq<char> {
    if table == "texts"@ {
        "text:"@ + title
    } else {
        "template:"@ + title
    }
}

pub fn collision_key(check: &TitleCheck) -> (s: String)
    ensures
        s@ == collision_key_spec(check.table@, check.title@),
{
    proof {
        reveal_strlit("");
        assert(check.title@ + ""@ =~= check.title@);
    }
    if str_eq(check.table, "texts") {
        concat3("text:", check.title.as_str(), "")
    } else {
        concat3("template:", check.title.as_str(), "")
    }
}

/// The keys of the checked titles that were found, in order.
pub open spec fn collisions_spec(checks: Seq<(Seq<char>, Seq<char>)>, found: Seq<bool>) -> Seq<
    Seq<char>,
>
    decreases checks.len(),
{
    if checks.len() == 0 {
        Seq::empty()
    } else {
        let rest = collisions_spec(checks.drop_last(), found.drop_last());
        if found.last() {
            rest.push(collision_key_spec(checks.last().0, checks.last().1))
        } else {
            rest
        }
    }
}

/// `found[i]` tells whether the title of `checks[i]` is already stored.
pub fn collisions(checks: &Vec<TitleCheck>, found: &Vec<bool>) -> (v: Vec<String>)
    requires
        checks@.len() == found@.len(),
    ensures
        v@.map_values(|s: String| s@) == collisions_spec(checks_view(checks@), found@),
{
    let ghost cv = checks_view(checks@);
    let mut v: Vec<String> = Vec::new();
    let mut k: usize = 0;
    while k < checks.len()
        invariant
            k <= checks@.len(),
            checks@.len() == found@.len(),
            cv == checks_view(checks@),
            v@.map_values(|s: String| s@) =~= collisions_spec(cv.take(k as int), found@.take(k as int)),
        decreases checks@.len() - k,
    {
        assert(cv.take(k + 1).drop_last() =~= cv.take(k as int));
        assert(found@.take(k + 1).drop_last() =~= found@.take(k as int));
        let ghost before = v@.map_values(|s: String| s@);
        if found[k] {
            let key = collision_key(&checks[k]);
            v.push(key);
            assert(v@.map_values(|s: String| s@) =~= before.push(key@));
        }
        k += 1;
    }
    assert(cv.take(checks@.len() as int) =~= cv);
    assert(found@.take(checks@.len() as int) =~= found@);
    v
}

/// Whether an item is marked as colliding in the dialog.
pub fn collides(keys: &Vec<String>, table: &'static str, title: &str) -> (b: bool)
    ensures
        b == keys@.map_values(|s: String| s@).contains(collision_key_spec(table@, title@)),
{
    let key = collision_key(&TitleCheck { table, title: title.to_string() });
    let mut i: usize = 0;
    while i < keys.len()
        invariant
            i <= keys@.len(),
            key@ == collision_key_spec(table@, title@),
            forall|j: int| 0 <= j < i ==> keys@[j]@ != key@,
        decreases keys@.len() - i,
    {
        if keys[i] == key {
            assert(keys@.map_values(|s: String| s@)[i as int] == key@);
            return true;
        }
        i += 1;
    }
    let ghost kv = keys@.map_values(|s: String| s@);
    assert forall|j: int| 0 <= j < kv.len() implies #[trigger] kv[j] != key@ by {}
    false
}

/// The buttons of the import dialog: replace or keep both when some titles
/// are already stored, confirm otherwise, and always cancel.
pub fn import_buttons(has_collisions: bool) -> (v: Vec<(&'static str, PopupAnswer)>)
    ensures
        has_collisions ==> v@.len() == 3 && v@[0].0@ == "Replace existing"@ && v@[0].1
            == PopupAnswer::Replace && v@[1].0@ == "Keep both"@ && v@[1].1 == PopupAnswer::KeepBoth
            && v@[2].0@ == "Cancel"@ && v@[2].1 == PopupAnswer::Cancel,
        !has_collisions ==> v@.len() == 2 && v@[0].0@ == "Confirm"@ && v@[0].1
            == PopupAnswer::Confirm && v@[1].0@ == "Cancel"@ && v@[1].1 == PopupAnswer::Cancel,
{
    let mut v: Vec<(&'static str, PopupAnswer)> = Vec::new();
    if has_collisions {
        v.push(("Replace existing", PopupAnswer::Replace));
        v.push(("Keep both", PopupAnswer::KeepBoth));
    } else {
        v.push(("Confirm", PopupAnswer::Confirm));
    }
    v.push(("Cancel", PopupAnswer::Cancel));
    v
}

impl JsonState {
    /// A successful parse opens the import dialog with the titles that collide.
    pub fn on_parsed(&mut self, payloads: Vec<ParsedPayload>, collisions: Vec<String>)
        ensures
            final(self).popup_payloads == Some(payloads),
            final(self).popup_collisions == collisions,
            final(self).popup_error is None,
            final(self).mode == old(self).mode,
            final(self).content == old(self).content,
    {
        self.popup_collisions = collisions;
        self.popup_payloads = Some(payloads);
        self.popup_error = None;
    }

    /// A failed parse shows its error.
    pub fn on_parse_error(&mut self, message: String)
        ensures
            final(self).popup_error == Some(message),
            final(self).popup_payloads == old(self).popup_payloads,
            final(self).popup_collisions == old(self).popup_collisions,
            final(self).mode == old(self).mode,
            final(self).content == old(self).content,
    {
        self.popup_error = Some(message);
    }

    /// The import dialog closes: Cancel drops the parsed blocks, Confirm and
    /// Keep both import them alongside what is stored, Replace imports them
    /// over the rows of the same titles; the dialog stays while it is open.
    pub fn on_import_answer(&mut self, answer: PopupAnswer) -> (a: JsonAction)
        ensures
            (answer == PopupAnswer::Pending || answer == PopupAnswer::Close || old(self).popup_payloads is None) ==> (a is Nothing && final(self).popup_payloads == old(self).popup_payloads && final(self).popup_collisions == old(self).popup_collisions),
            old(self).popup_payloads is Some && answer == PopupAnswer::Cancel ==> (a is Nothing && final(self).popup_payloads is None && final(self).popup_collisions@.len() == 0),
            old(self).popup_payloads is Some && (answer == PopupAnswer::Confirm || answer == PopupAnswer::KeepBoth) ==> (a matches JsonAction::ImportConfirmed(p, m) && Some(p) == old(self).popup_payloads && m == ImportMode::KeepBoth && final(self).popup_payloads is None && final(self).popup_collisions@.len() == 0),
            old(self).popup_payloads is Some && answer == PopupAnswer::Replace ==> (a matches JsonAction::ImportConfirmed(p, m) && Some(p) == old(self).popup_payloads && m == ImportMode::Replace && final(self).popup_payloads is None && final(self).popup_collisions@.len() == 0),
            final(self).popup_error == old(self).popup_error,
            final(self).mode == old(self).mode,
            final(self).content == old(self).content,
    {
        if self.popup_payloads.is_none() {
            return JsonAction::Nothing;
        }
        let mode = match answer {
            PopupAnswer::Cancel => {
                self.popup_payloads = None;
                self.popup_collisions = Vec::new();
                return JsonAction::Nothing;
            },
            PopupAnswer::Confirm | PopupAnswer::KeepBoth => ImportMode::KeepBoth,
            PopupAnswer::Replace => ImportMode::Replace,
            PopupAnswer::Pending | PopupAnswer::Close => {
                return JsonAction::Nothing;
            },
        };
        let taken = self.popup_payloads.take();
        self.popup_collisions = Vec::new();
        match taken {
            Some(p) => JsonAction::ImportConfirmed(p, mode),
            None => JsonAction::Nothing,
        }
    }

    /// Closing the error dialog forgets the error.
    pub fn on_error_closed(&mut self)
        ensures
            final(self).popup_error is None,
            final(self).popup_payloads == old(self).popup_payloads,
            final(self).mode == old(self).mode,
            final(self).content == old(self).content,
    {
        self.popup_error = None;
    }
}

} // verus!
