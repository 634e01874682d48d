//! Reading the text of a model's answer out of the body of its reply.
//!
//! A reply is expected to be a JSON object with a string field
//! `"response"`.  Anything else is taken as the text itself: a reply is
//! never rejected for its shape.

use vstd::prelude::*;
use crate::agent::text_view;

verus! {

/// The string that `serde_json` finds under `key` when it reads `body`:
/// `Some` exactly when `body` is a JSON document whose top level is an
/// object that holds a string under `key`.  It stands for
/// `serde_json::from_str::<Value>(body)` followed by `Value::get(key)` and
/// a match on `Value::String`.
pub uninterp spec fn json_string_field(body: Seq<char>, key: Seq<char>) -> Option<Seq<char>>;

/// Parses `body` with `serde_json::from_str` into a `serde_json::Value`,
/// looks `key` up with `Value::get` and hands the string out if the entry
/// is a `Value::String`.  A parse error, a top level that is no object, a
/// missing key and an entry of another type all give `None`.  The result
/// depends on the two texts alone and is named [`json_string_field`].
#[verifier::external_body]
pub(crate) fn string_field(body: &str, key: &str) -> (field: Option<String>)
    ensures
        text_view(field) == json_string_field(body@, key@),
{
    match serde_json::from_str::<serde_json::Value>(body) {
        Ok(value) => match value.get(key) {
            Some(serde_json::Value::String(text)) => Some(text.clone()),
            _ => None,
        },
        Err(_) => None,
    }
}

/// The text of a model's answer, with how it was found.
#[derive(Debug)]
pub enum ResponseText {
    /// The `"response"` field of a JSON reply.
    Parsed(String),
    /// The whole body of a reply that had no such field.
    RawFallback(String),
}

/// Model of a [`ResponseText`].
pub enum ResponseTextView {
    Parsed(Seq<char>),
    RawFallback(Seq<char>),
}

impl ResponseTextView {
    /// The text, however it was found.
    pub open spec fn text(self) -> Seq<char> {
        match self {
            ResponseTextView::Parsed(text) => text,
            ResponseTextView::RawFallback(text) => text,
        }
    }
}

impl View for ResponseText {
    type V = ResponseTextView;

    open spec fn view(&self) -> ResponseTextView {
        match self {
            ResponseText::Parsed(text) => ResponseTextView::Parsed(text@),
            ResponseText::RawFallback(text) => ResponseTextView::RawFallback(text@),
        }
    }
}

impl ResponseText {
    /// The text, however it was found.
    pub fn into_text(self) -> (text: String)
        ensures
            text@ == self@.text(),
    {
        match self {
            ResponseText::Parsed(text) => text,
            ResponseText::RawFallback(text) => text,
        }
    }
}

/// The answer in a reply, given what was found under `"response"`: the
/// field where there is one, else the body.
pub open spec fn select_text(field: Option<Seq<char>>, body: Seq<char>) -> ResponseTextView {
    match field {
        Some(text) => ResponseTextView::Parsed(text),
        None => ResponseTextView::RawFallback(body),
    }
}

/// The answer in a reply with body `body`.
pub open spec fn response_of(body: Seq<char>) -> ResponseTextView {
    select_text(json_string_field(body, "response"@), body)
}

/// Chooses between the field found in a reply and the reply's body.
pub fn text_or_body(field: Option<String>, body: String) -> (answer: ResponseText)
    ensures
        answer@ == select_text(text_view(field), body@),
{
    match field {
        Some(text) => ResponseText::Parsed(text),
        None => ResponseText::RawFallback(body),
    }
}

/// Reads the answer out of a reply.
pub fn extract_response_text(body: String) -> (answer: ResponseText)
    ensures
        answer@ == response_of(body@),
{
    let field = string_field(body.as_str(), "response");
    text_or_body(field, body)
}

} // verus!
