use vstd::prelude::*;
use crate::parsed::ParsedPayload;

verus! {

/// The example screen: the JSON being tried, what it parsed to, and the
/// parse error shown instead while there is one.
pub struct JsonExampleState {
    pub text: String,
    pub parsed: Vec<ParsedPayload>,
    pub error: Option<String>,
}

impl Default for JsonExampleState {
    fn default() -> (s: Self)
        ensures
            s.text@ == Seq::<char>::empty(),
            s.parsed@.len() == 0,
            s.error is None,
    {
        JsonExampleState { text: String::new(), parsed: Vec::new(), error: None }
    }
}

/// What the example screen asks for.
#[derive(Clone, Copy, PartialEq, Eq, Structural, Debug)]
pub enum JsonExampleAction {
    Nothing,
    Back,
    GoToCreateText,
}

/// The JSON the example screen starts with: one block of two new texts.
pub open spec fn default_example_spec() -> Seq<char> {
    "[\n  {\n    \"parsing_instruct\": \"new_texts\",\n    \"items\": [\n      {\n        \"title\": \"first title\",\n        \"body\": \"first body\",\n        \"category\": \"examples\",\n        \"meta_category\": \"docs\"\n      },\n      {\n        \"title\": \"second title\",\n        \"body\": \"second body\"\n      }\n    ]\n  }\n]"@
}

pub fn default_example_json() -> (s: &'static str)
    ensures
        s@ == default_example_spec(),
{
    "[\n  {\n    \"parsing_instruct\": \"new_texts\",\n    \"items\": [\n      {\n        \"title\": \"first title\",\n        \"body\": \"first body\",\n        \"category\": \"examples\",\n        \"meta_category\": \"docs\"\n      },\n      {\n        \"title\": \"second title\",\n        \"body\": \"second body\"\n      }\n    ]\n  }\n]"
}

impl JsonExampleState {
    /// Opening the example from the JSON screen: the pasted text is tried,
    /// or the default example when nothing was pasted.
    pub fn open_with(&mut self, content: &str)
        ensures
            content@.len() == 0 ==> final(self).text@ == default_example_spec(),
            content@.len() > 0 ==> final(self).text@ == content@,
            final(self).parsed@.len() == 0,
            final(self).error is None,
    {
        self.text = if content.is_empty() {
            default_example_json().to_string()
        } else {
            content.to_string()
        };
        self.parsed = Vec::new();
        self.error = None;
    }

    /// A parse replaces what is shown: the blocks, or the error.
    pub fn on_parse(&mut self, result: Result<Vec<ParsedPayload>, String>)
        ensures
            result matches Ok(p) ==> (final(self).parsed == p && final(self).error is None),
            result matches Err(e) ==> (final(self).error == Some(e) && final(self).parsed == old(self).parsed),
            final(self).text == old(self).text,
    {
        match result {
            Ok(p) => {
                self.parsed = p;
                self.error = None;
            },
            Err(e) => {
                self.error = Some(e);
            },
        }
    }

    /// Reset leaves the error screen.
    pub fn reset(&mut self)
        ensures
            final(self).error is None,
            final(self).text == old(self).text,
            final(self).parsed == old(self).parsed,
    {
        self.error = None;
    }
}

} // verus!
