//! The JSON reader that the parser stands on.
//!
//! Reading JSON text is left to `serde_json`. A value of that crate is opaque
//! to the proofs; what it holds is modelled by [`JsonView`], a plain tree, and
//! `json_view` names the tree of a value. Nothing in the declarations below
//! is proved: they declare the two types of `serde_json` that the library
//! handles, name what its functions return, and state for each function that
//! the library calls how its result reads in the model.

use vstd::prelude::*;

verus! {

/// What a JSON value holds, as far as the library reads it.
pub ghost enum JsonView {
    /// A string, with its characters.
    Text(Seq<char>),
    /// An array, with its elements in their order.
    List(Seq<JsonView>),
    /// An object, with its members by their keys.
    Object(Map<Seq<char>, JsonView>),
    /// Null, a boolean or a number: nothing is read from these.
    Other,
}

impl JsonView {
    /// The characters of a string; `None` for anything else.
    pub open spec fn text(self) -> Option<Seq<char>> {
        match self {
            JsonView::Text(characters) => Some(characters),
            _ => None,
        }
    }

    /// The elements of an array; `None` for anything else.
    pub open spec fn elements(self) -> Option<Seq<JsonView>> {
        match self {
            JsonView::List(elements) => Some(elements),
            _ => None,
        }
    }

    /// The member of an object under a key; `None` where the object has no
    /// such key, and for anything that is no object.
    pub open spec fn member(self, key: Seq<char>) -> Option<JsonView> {
        match self {
            JsonView::Object(members) => if members.contains_key(key) {
                Some(members[key])
            } else {
                None
            },
            _ => None,
        }
    }
}

/// A JSON value of `serde_json`, carried as it is.
#[verifier::external_type_specification]
#[verifier::external_body]
pub struct ExJsonValue(serde_json::Value);

/// The error with which `serde_json` refuses a text.
#[verifier::external_type_specification]
#[verifier::external_body]
pub struct ExJsonError(serde_json::Error);

/// What a `serde_json::Value` holds.
pub uninterp spec fn json_view(value: serde_json::Value) -> JsonView;

/// The message that a `serde_json::Error` displays.
pub uninterp spec fn json_error_text(error: serde_json::Error) -> Seq<char>;

/// What `serde_json::from_str` makes of a text when it is asked for a
/// `serde_json::Value`: what the value holds that the text denotes, or the
/// message of the error with which the text is refused.
pub uninterp spec fn json_parse(text: Seq<char>) -> Result<JsonView, Seq<char>>;

/// What each of a sequence of values holds, one for one.
pub open spec fn json_views(values: Seq<serde_json::Value>) -> Seq<JsonView> {
    Seq::new(values.len(), |i: int| json_view(values[i]))
}

/// What the outcome of reading a text holds: what the value holds, or the
/// message of the error.
pub open spec fn read_view(outcome: Result<serde_json::Value, serde_json::Error>) -> Result<
    JsonView,
    Seq<char>,
> {
    match outcome {
        Ok(value) => Ok(json_view(value)),
        Err(error) => Err(json_error_text(error)),
    }
}

/// `serde_json::Value::as_array` hands out the elements of an array, and
/// `None` for every other value.
pub assume_specification[ serde_json::Value::as_array ](value: &serde_json::Value) -> (items:
    Option<&Vec<serde_json::Value>>)
    ensures
        items matches Some(found) ==> json_view(*value).elements() == Some(json_views(found@)),
        items is None ==> json_view(*value).elements() is None,
;

/// `serde_json::Value::as_str` hands out the characters of a string, and
/// `None` for every other value.
pub assume_specification[ serde_json::Value::as_str ](value: &serde_json::Value) -> (text: Option<
    &str,
>)
    ensures
        text matches Some(found) ==> json_view(*value).text() == Some(found@),
        text is None ==> json_view(*value).text() is None,
;

/// Calls `serde_json::from_str` for a `serde_json::Value`. Whether a text is
/// accepted, and what the value holds or the error says, is a function of
/// the text alone, which `json_parse` names; nothing is claimed about which
/// texts are accepted.
#[verifier::external_body]
pub(crate) fn read_json(text: &str) -> (outcome: Result<serde_json::Value, serde_json::Error>)
    ensures
        json_parse(text@) == read_view(outcome),
{
    serde_json::from_str::<serde_json::Value>(text)
}

/// Calls `serde_json::Value::get` with a text key: the member of an object
/// under that key, `None` where there is none or the value is no object.
#[verifier::external_body]
pub(crate) fn member<'a>(value: &'a serde_json::Value, key: &str) -> (found: Option<
    &'a serde_json::Value,
>)
    ensures
        found matches Some(inner) ==> json_view(*value).member(key@) == Some(json_view(*inner)),
        found is None ==> json_view(*value).member(key@) is None,
{
    value.get(key)
}

/// Calls `to_string` on a `serde_json::Error`: the message that the error
/// displays.
#[verifier::external_body]
pub(crate) fn error_message(error: &serde_json::Error) -> (message: String)
    ensures
        message@ == json_error_text(*error),
{
    error.to_string()
}

} // verus!
