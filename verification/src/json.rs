//! JSON values as the adapter sees them.

use vstd::prelude::*;

verus! {

/// A JSON value.
#[derive(Debug, PartialEq, Eq)]
pub enum Json {
    Null,
    Bool(bool),
    /// A number, held as the text that `serde_json` prints for it.
    Number(String),
    String(String),
    Array(Vec<Json>),
    /// An object: its members in the order `serde_json` walks them.
    Object(Vec<(String, Json)>),
}

/// The mathematical value that a [`Json`] stands for.
pub enum JsonView {
    Null,
    Bool(bool),
    Number(Seq<char>),
    String(Seq<char>),
    Array(Seq<JsonView>),
    Object(Seq<(Seq<char>, JsonView)>),
}

impl View for Json {
    type V = JsonView;

    open spec fn view(&self) -> JsonView
        decreases self,
    {
        match self {
            Json::Null => JsonView::Null,
            Json::Bool(b) => JsonView::Bool(*b),
            Json::Number(text) => JsonView::Number(text@),
            Json::String(text) => JsonView::String(text@),
            Json::Array(items) => JsonView::Array(
                Seq::new(
                    items@.len(),
                    |i: int| if 0 <= i < items@.len() { items@[i]@ } else { JsonView::Null },
                ),
            ),
            Json::Object(members) => JsonView::Object(
                Seq::new(
                    members@.len(),
                    |i: int| if 0 <= i < members@.len() { (members@[i].0@, members@[i].1@) } else { (Seq::empty(), JsonView::Null) },
                ),
            ),
        }
    }
}

/// The value that `serde_json` reads from a text, or `None` where it reads none
/// (the text is no JSON document, nests deeper than `serde_json` follows, or
/// holds a number outside its range).
pub uninterp spec fn json_of(text: Seq<char>) -> Option<JsonView>;

/// `serde_json::Value`, opaque here: only [`lift`] looks inside one.
#[verifier::external_type_specification]
#[verifier::external_body]
pub struct ExValue(serde_json::Value);

/// Rebuilds a `serde_json::Value` as a [`Json`], variant by variant: numbers
/// by the text that `serde_json::Number` prints, the members of an object in
/// the order in which `serde_json::Map` hands them out. Nothing is proved of
/// it, and it promises nothing by itself: [`read_value`] speaks for both.
#[verifier::external_body]
fn lift(value: serde_json::Value) -> Json {
    match value {
        serde_json::Value::Null => Json::Null,
        serde_json::Value::Bool(b) => Json::Bool(b),
        serde_json::Value::Number(n) => Json::Number(n.to_string()),
        serde_json::Value::String(s) => Json::String(s),
        serde_json::Value::Array(items) => Json::Array(items.into_iter().map(lift).collect()),
        serde_json::Value::Object(members) => {
            Json::Object(members.into_iter().map(|(k, v)| (k, lift(v))).collect())
        },
    }
}

/// Calls `serde_json::from_str` for a `serde_json::Value`. Taken on trust:
/// the result is the value that `serde_json` reads from the text, which
/// [`json_of`] names, and the same text always gives the same value; `None`
/// stands for every error of `serde_json`.
#[verifier::external_body]
pub(crate) fn read_value(text: &str) -> (doc: Option<Json>)
    ensures
        doc is Some <==> json_of(text@) is Some,
        doc matches Some(value) ==> json_of(text@) == Some(value@),
{
    match serde_json::from_str::<serde_json::Value>(text) {
        Ok(value) => Some(lift(value)),
        Err(_) => None,
    }
}

} // verus!
