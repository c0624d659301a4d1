//! The TOML reader that the configuration stands on.
//!
//! Reading TOML is left to the `toml` crate. A value of that crate is opaque
//! to the proofs; what it holds is modelled by [`TomlView`], a plain tree,
//! and `toml_view` names the tree of a value. Nothing in the declarations
//! below is proved: they declare the two types of `toml` that the library
//! handles, name what its functions return, and state for each function that
//! the library calls how its result reads in the model.

use vstd::prelude::*;

verus! {

/// What a TOML value holds, as far as the library reads it.
pub ghost enum TomlView {
    /// A string, with its characters.
    Text(Seq<char>),
    /// A table, with its entries by their keys.
    Table(Map<Seq<char>, TomlView>),
    /// A number, a boolean, a date or an array: nothing is read from these.
    Other,
}

impl TomlView {
    /// The characters of a string; `None` for anything else.
    pub open spec fn text(self) -> Option<Seq<char>> {
        match self {
            TomlView::Text(characters) => Some(characters),
            _ => None,
        }
    }

    /// The entry of a table under a key; `None` where the table has no such
    /// key, and for anything that is no table.
    pub open spec fn entry(self, key: Seq<char>) -> Option<TomlView> {
        match self {
            TomlView::Table(entries) => if entries.contains_key(key) {
                Some(entries[key])
            } else {
                None
            },
            _ => None,
        }
    }
}

/// A TOML value of the `toml` crate, carried as it is.
#[verifier::external_type_specification]
#[verifier::external_body]
pub struct ExTomlValue(toml::Value);

/// The error with which the `toml` crate refuses a document.
#[verifier::external_type_specification]
#[verifier::external_body]
pub struct ExTomlError(toml::de::Error);

/// What a `toml::Value` holds.
pub uninterp spec fn toml_view(value: toml::Value) -> TomlView;

/// What `toml::from_str` makes of a document when it is asked for a
/// `toml::Value`: what the document's table holds, or `None` where the
/// document is refused.
pub uninterp spec fn toml_parse(text: Seq<char>) -> Option<TomlView>;

/// What the outcome of reading a document holds.
pub open spec fn document_view(outcome: Result<toml::Value, toml::de::Error>) -> Option<TomlView> {
    match outcome {
        Ok(value) => Some(toml_view(value)),
        Err(_) => None,
    }
}

/// `toml::Value::as_str` hands out the characters of a string, and `None`
/// for every other value.
pub assume_specification[ toml::Value::as_str ](value: &toml::Value) -> (text: Option<&str>)
    ensures
        text matches Some(found) ==> toml_view(*value).text() == Some(found@),
        text is None ==> toml_view(*value).text() is None,
;

/// Calls `toml::from_str` for a `toml::Value`. Whether a document is
/// accepted, and what its table holds, is a function of the text alone,
/// which `toml_parse` names; nothing is claimed about which documents are
/// accepted.
#[verifier::external_body]
pub(crate) fn read_toml(text: &str) -> (outcome: Result<toml::Value, toml::de::Error>)
    ensures
        toml_parse(text@) == document_view(outcome),
{
    toml::from_str::<toml::Value>(text)
}

/// Calls `toml::Value::get` with a text key: the entry of a table under that
/// key, `None` where there is none or the value is no table.
#[verifier::external_body]
pub(crate) fn entry<'a>(value: &'a toml::Value, key: &str) -> (found: Option<
    &'a toml::Value,
>)
    ensures
        found matches Some(inner) ==> toml_view(*value).entry(key@) == Some(toml_view(*inner)),
        found is None ==> toml_view(*value).entry(key@) is None,
{
    value.get(key)
}

} // verus!
