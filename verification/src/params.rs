//! The parameter normaliser: from an optional raw payload to the positional
//! parameters of a call.

use vstd::prelude::*;
use crate::error::InvalidParams;
use crate::json::{json_of, Json, JsonView};
use crate::payload::RawJson;

verus! {

/// The positional parameters of a call: the elements of a JSON array.
#[derive(Debug, PartialEq, Eq)]
pub struct ParamList {
    pub items: Vec<Json>,
}

impl View for ParamList {
    type V = Seq<JsonView>;

    open spec fn view(&self) -> Seq<JsonView> {
        Seq::new(
            self.items@.len(),
            |i: int| self.items@[i]@,
        )
    }
}

/// The message of a refusal: what was expected, then the payload as given.
pub open spec fn invalid_params_message(text: Seq<char>) -> Seq<char> {
    "RPC Params are expected to be an array but got "@ + text
}

/// What a document that was read becomes: the elements of an array, in their
/// order; a refusal that quotes `text` for anything else, and for no document.
pub open spec fn params_of_document(doc: Option<JsonView>, text: Seq<char>) -> Result<
    Seq<JsonView>,
    Seq<char>,
> {
    match doc {
        Some(JsonView::Array(items)) => Ok(items),
        _ => Err(invalid_params_message(text)),
    }
}

/// What a payload becomes: no payload is the empty list, a payload is read
/// and must hold an array.
pub open spec fn normalized(params: Option<Seq<char>>) -> Result<Seq<JsonView>, Seq<char>> {
    match params {
        None => Ok(Seq::empty()),
        Some(text) => params_of_document(json_of(text), text),
    }
}

/// The text of an optional payload.
pub open spec fn text_of(params: Option<RawJson>) -> Option<Seq<char>> {
    match params {
        None => None,
        Some(raw) => Some(raw@),
    }
}

/// Whether an outcome of the normaliser is the one that `model` describes.
pub open spec fn agrees(
    outcome: Result<ParamList, InvalidParams>,
    model: Result<Seq<JsonView>, Seq<char>>,
) -> bool {
    match outcome {
        Ok(list) => model == Ok::<Seq<JsonView>, Seq<char>>(list@),
        Err(refusal) => model == Err::<Seq<JsonView>, Seq<char>>(refusal.message@),
    }
}

impl ParamList {
    /// The empty list.
    pub fn new() -> (list: ParamList)
        ensures
            list@ == Seq::<JsonView>::empty(),
    {
        ParamList { items: Vec::new() }
    }

    /// How many parameters there are.
    pub fn len(&self) -> (n: usize)
        ensures
            n == self@.len(),
    {
        self.items.len()
    }
}

/// Builds the refusal for a payload.
pub fn refuse(raw: &RawJson) -> (refusal: InvalidParams)
    ensures
        refusal.message@ == invalid_params_message(raw@),
{
    let message = String::from_str("RPC Params are expected to be an array but got ").concat(
        raw.get(),
    );
    InvalidParams { message }
}

/// Turns the document read from `raw` into parameters: the elements of an
/// array unchanged and in order; a refusal for any other value, and where
/// nothing was read.
pub fn params_from_document(doc: Option<Json>, raw: &RawJson) -> (r: Result<
    ParamList,
    InvalidParams,
>)
    ensures
        match doc {
            Some(Json::Array(items)) => r matches Ok(list) && list.items == items,
            _ => r matches Err(refusal) && refusal.message@ == invalid_params_message(raw@),
        },
        agrees(
            r,
            params_of_document(
                match doc {
                    Some(value) => Some(value@),
                    None => None,
                },
                raw@,
            ),
        ),
{
    match doc {
        Some(Json::Array(items)) => {
            let list = ParamList { items };
            assert(Json::Array(list.items)@ == JsonView::Array(list@)) by {
                assert(Json::Array(list.items)@->Array_0 =~= list@);
            }
            Ok(list)
        },
        _ => Err(refuse(raw)),
    }
}

/// Normalises the parameters of a call.
///
/// No payload gives the empty list. A payload that holds a JSON array gives
/// its elements, unchanged and in order. Every other payload (an object, a
/// string, a number, a boolean, `null`, or a text that is no document) is
/// refused with a message that quotes it.
pub fn normalize(params: Option<RawJson>) -> (r: Result<ParamList, InvalidParams>)
    ensures
        match params {
            None => r matches Ok(list) && list@ == Seq::<JsonView>::empty(),
            Some(raw) => match raw.value() {
                Some(JsonView::Array(items)) => r matches Ok(list) && list@ == items,
                _ => r matches Err(refusal) && refusal.message@ == invalid_params_message(raw@),
            },
        },
        agrees(r, normalized(text_of(params))),
{
    match params {
        None => Ok(ParamList::new()),
        Some(raw) => {
            let doc = raw.to_value();
            params_from_document(doc, &raw)
        },
    }
}

} // verus!
