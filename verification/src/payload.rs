//! Raw payloads: JSON documents carried as text.

use vstd::prelude::*;
use crate::json::{json_of, read_value, Json, JsonView};

verus! {

/// The text of a JSON document. The adapter hands it on as it came and looks
/// inside in one place only: where call parameters must be an array.
#[derive(Debug, PartialEq, Eq, Clone)]
pub struct RawJson {
    text: String,
}

impl View for RawJson {
    type V = Seq<char>;

    closed spec fn view(&self) -> Seq<char> {
        self.text@
    }
}

impl RawJson {
    /// The value that the text stands for, where it stands for one.
    pub open spec fn value(&self) -> Option<JsonView> {
        json_of(self@)
    }

    /// Takes a text as a payload, unread.
    pub fn from_string(text: String) -> (raw: RawJson)
        ensures
            raw@ == text@,
    {
        RawJson { text }
    }

    /// The text of the document.
    pub fn get(&self) -> (text: &str)
        ensures
            text@ == self@,
    {
        self.text.as_str()
    }

    /// Gives the text back.
    pub fn into_string(self) -> (text: String)
        ensures
            text@ == self@,
    {
        self.text
    }

    /// Reads the document: `None` where the text holds no JSON value.
    pub fn to_value(&self) -> (doc: Option<Json>)
        ensures
            doc is Some <==> self.value() is Some,
            doc matches Some(value) ==> self.value() == Some(value@),
    {
        read_value(self.text.as_str())
    }
}

} // verus!
