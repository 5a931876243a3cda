//! What this library takes on trust.
//!
//! Reading and writing JSON text is left to `serde_json`, and showing a list
//! of strings in quotes to the formatter of std. Each function below makes
//! one such call, on plain values, and its contract gives the call's result
//! a name. Nothing here is proved: a contract says only that the result is
//! the one that the call gives for these arguments, and the rest of the
//! library is proved from that.

use serde_json::value::RawValue;
use std::collections::BTreeMap;
use vstd::prelude::*;

verus! {

/// `String::push` of std: the character is added at the end of the string.
pub assume_specification[ String::push ](s: &mut String, ch: char)
    ensures
        final(s)@ == old(s)@.push(ch),
;

/// What the formatter of std shows for a list of strings under `{:?}`: the
/// strings in quotes, with their escapes, between square brackets. It depends
/// on the list alone.
pub uninterp spec fn debug_text(items: Seq<Seq<char>>) -> Seq<char>;

/// Calls the formatter of std on a list of strings, with `{:?}`, that is
/// `Debug` for `Vec<String>`. The contract claims that the text is
/// `debug_text` of the list, and no more.
#[verifier::external_body]
pub(crate) fn debug_strings(items: &Vec<String>) -> (shown: String)
    ensures
        shown@ == debug_text(items.deep_view()),
{
    format!("{:?}", items)
}

/// What `serde_json::to_string` gives for a list of strings: the JSON text of
/// the list, or the message of the error. It depends on the list alone.
pub uninterp spec fn json_text(items: Seq<Seq<char>>) -> Result<Seq<char>, Seq<char>>;

/// What `serde_json::from_str` gives when it reads `text` as a list of
/// strings: the strings in order, or the message of the error. It depends on
/// the text alone.
pub uninterp spec fn json_strings(text: Seq<char>) -> Result<Seq<Seq<char>>, Seq<char>>;

/// What `serde_json::from_str` gives when it reads `text` as an object: each
/// member's name with the JSON text of its value, in the order of the names
/// and with the last of the members that share a name, or the message of the
/// error. It depends on the text alone.
pub uninterp spec fn json_members(text: Seq<char>) -> Result<
    Seq<(Seq<char>, Seq<char>)>,
    Seq<char>,
>;

/// Calls `serde_json::to_string` on a list of strings. The contract claims
/// that the outcome is `json_text` of the list, and no more; an error is
/// handed on as the message it shows.
#[verifier::external_body]
pub(crate) fn write_strings(items: &Vec<String>) -> (r: Result<String, String>)
    ensures
        match r {
            Ok(text) => json_text(items.deep_view()) == Ok::<Seq<char>, Seq<char>>(text@),
            Err(message) => json_text(items.deep_view()) == Err::<Seq<char>, Seq<char>>(message@),
        },
{
    match serde_json::to_string(items) {
        Ok(text) => Ok(text),
        Err(error) => Err(error.to_string()),
    }
}

/// Calls `serde_json::from_str` to read `text` as a `Vec<String>`. The
/// contract claims that the outcome is `json_strings` of the text, and no
/// more; an error is handed on as the message it shows.
#[verifier::external_body]
pub(crate) fn read_strings(text: &str) -> (r: Result<Vec<String>, String>)
    ensures
        match r {
            Ok(items) => json_strings(text@) == Ok::<Seq<Seq<char>>, Seq<char>>(items.deep_view()),
            Err(message) => json_strings(text@) == Err::<Seq<Seq<char>>, Seq<char>>(message@),
        },
{
    match serde_json::from_str::<Vec<String>>(text) {
        Ok(items) => Ok(items),
        Err(error) => Err(error.to_string()),
    }
}

/// Calls `serde_json::from_str` to read `text` as a map from names to values
/// that are kept as they are written (`RawValue`), and hands the entries out
/// in the map's order. The contract claims that the outcome is `json_members`
/// of the text, and no more; an error is handed on as the message it shows.
#[verifier::external_body]
pub(crate) fn read_members(text: &str) -> (r: Result<Vec<(String, String)>, String>)
    ensures
        match r {
            Ok(members) => json_members(text@) == Ok::<Seq<(Seq<char>, Seq<char>)>, Seq<char>>(
                members.deep_view(),
            ),
            Err(message) => json_members(text@) == Err::<Seq<(Seq<char>, Seq<char>)>, Seq<char>>(
                message@,
            ),
        },
{
    match serde_json::from_str::<BTreeMap<String, Box<RawValue>>>(text) {
        Ok(members) => Ok(
            members.into_iter().map(|(name, value)| (name, value.get().to_owned())).collect(),
        ),
        Err(error) => Err(error.to_string()),
    }
}

} // verus!
