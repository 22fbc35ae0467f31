use vstd::prelude::*;

verus! {

/// The category picker of a form: whether its dialog is shown, whether the
/// dialog is asking for a new name, that name as typed, and the category
/// picked so far (empty for none).
#[derive(Debug)]
pub struct CategoryPickerState {
    pub show: bool,
    pub creating_new: bool,
    pub new_name: String,
    pub current: String,
}

impl Default for CategoryPickerState {
    fn default() -> (s: Self)
        ensures
            !s.show,
            !s.creating_new,
            s.new_name@ == Seq::<char>::empty(),
            s.current@ == Seq::<char>::empty(),
    {
        CategoryPickerState {
            show: false,
            creating_new: false,
            new_name: String::new(),
            current: String::new(),
        }
    }
}

/// What the picker reports to its form.
#[derive(Debug, PartialEq, Eq)]
pub enum CategoryPickerResult {
    Nothing,
    Picked(String),
    Cleared,
}

/// A click in the picker.
#[derive(Debug)]
pub enum PickerEvent {
    /// The button that opens the dialog.
    Open,
    /// One of the existing categories.
    PickExisting(String),
    /// "New category": ask for a name.
    StartNew,
    /// Confirm the typed name.
    ConfirmNew,
    /// Stop asking for a name.
    CancelNew,
    /// Remove the picked category.
    Clear,
    /// Close the dialog.
    Cancel,
}

pub struct PickerSpec {
    pub show: bool,
    pub creating_new: bool,
    pub new_name: Seq<char>,
    pub current: Seq<char>,
}

impl View for CategoryPickerState {
    type V = PickerSpec;

    open spec fn view(&self) -> PickerSpec {
        PickerSpec {
            show: self.show,
            creating_new: self.creating_new,
            new_name: self.new_name@,
            current: self.current@,
        }
    }
}

pub enum PickerResultSpec {
    Nothing,
    Picked(Seq<char>),
    Cleared,
}

impl View for CategoryPickerResult {
    type V = PickerResultSpec;

    open spec fn view(&self) -> PickerResultSpec {
        match self {
            CategoryPickerResult::Nothing => PickerResultSpec::Nothing,
            CategoryPickerResult::Picked(s) => PickerResultSpec::Picked(s@),
            CategoryPickerResult::Cleared => PickerResultSpec::Cleared,
        }
    }
}

/// What a click does to the picker and what it reports.
pub open spec fn picker_step(s: PickerSpec, e: PickerEvent) -> (PickerSpec, PickerResultSpec) {
    match e {
        PickerEvent::Open => (
            PickerSpec { show: true, creating_new: false, new_name: Seq::empty(), ..s },
            PickerResultSpec::Nothing,
        ),
        PickerEvent::PickExisting(name) => (
            PickerSpec { show: false, current: name@, ..s },
            PickerResultSpec::Picked(name@),
        ),
        PickerEvent::StartNew => (PickerSpec { creating_new: true, ..s }, PickerResultSpec::Nothing),
        PickerEvent::ConfirmNew => if s.new_name.len() > 0 {
            (
                PickerSpec { show: false, creating_new: false, current: s.new_name, ..s },
                PickerResultSpec::Picked(s.new_name),
            )
        } else {
            (s, PickerResultSpec::Nothing)
        },
        PickerEvent::CancelNew => (
            PickerSpec { creating_new: false, ..s },
            PickerResultSpec::Nothing,
        ),
        PickerEvent::Clear => if s.current.len() > 0 {
            (PickerSpec { show: false, current: Seq::empty(), ..s }, PickerResultSpec::Cleared)
        } else {
            (s, PickerResultSpec::Nothing)
        },
        PickerEvent::Cancel => (PickerSpec { show: false, ..s }, PickerResultSpec::Nothing),
    }
}

impl CategoryPickerState {
    /// Applies one click: a new name is taken only when it is not empty, and
    /// only a picked category can be cleared.
    pub fn handle(&mut self, event: PickerEvent) -> (r: CategoryPickerResult)
        ensures
            (final(self)@, r@) == picker_step(old(self)@, event),
    {
        match event {
            PickerEvent::Open => {
                self.show = true;
                self.creating_new = false;
                self.new_name = String::new();
                CategoryPickerResult::Nothing
            },
            PickerEvent::PickExisting(name) => {
                self.current = name.clone();
                self.show = false;
                CategoryPickerResult::Picked(name)
            },
            PickerEvent::StartNew => {
                self.creating_new = true;
                CategoryPickerResult::Nothing
            },
            PickerEvent::ConfirmNew => {
                if !self.new_name.as_str().is_empty() {
                    self.current = self.new_name.clone();
                    self.show = false;
                    self.creating_new = false;
                    CategoryPickerResult::Picked(self.new_name.clone())
                } else {
                    CategoryPickerResult::Nothing
                }
            },
            PickerEvent::CancelNew => {
                self.creating_new = false;
                CategoryPickerResult::Nothing
            },
            PickerEvent::Clear => {
                if !self.current.as_str().is_empty() {
                    self.current = String::new();
                    self.show = false;
                    CategoryPickerResult::Cleared
                } else {
                    CategoryPickerResult::Nothing
                }
            },
            PickerEvent::Cancel => {
                self.show = false;
                CategoryPickerResult::Nothing
            },
        }
    }
}

/// What the picker button reads: the picked category, or an invitation to pick one.
pub fn picker_label(state: &CategoryPickerState) -> (s: String)
    ensures
        state.current@.len() == 0 ==> s@ == "Pick category"@,
        state.current@.len() > 0 ==> s@ == state.current@,
{
    if state.current.as_str().is_empty() {
        "Pick category".to_string()
    } else {
        state.current.clone()
    }
}

/// Whatever category was picked is what the picker then holds, and the dialog closes.
pub proof fn law_pick_is_kept(s: PickerSpec, name: String)
    ensures
        picker_step(s, PickerEvent::PickExisting(name)).0.current == name@,
        !picker_step(s, PickerEvent::PickExisting(name)).0.show,
        picker_step(s, PickerEvent::PickExisting(name)).1 == PickerResultSpec::Picked(name@),
{
}

/// An empty new name is never taken: the picker stays as it was.
pub proof fn law_empty_name_refused(s: PickerSpec)
    requires
        s.new_name.len() == 0,
    ensures
        picker_step(s, PickerEvent::ConfirmNew) == (s, PickerResultSpec::Nothing),
{
}

} // verus!
