//! The few operations on JSON documents that the provider client needs,
//! carried out by `serde_json`.

use crate::text::texts;
use vstd::prelude::*;

verus! {

#[verifier::external_type_specification]
#[verifier::external_body]
pub struct ExJsonValue(serde_json::Value);

#[verifier::external_type_specification]
#[verifier::external_body]
pub struct ExJsonError(serde_json::Error);

/// A path into a JSON value: the keys of the objects to go through, outermost
/// first. The empty path stands for the value itself.
pub type JsonPath = Seq<Seq<char>>;

/// What a JSON value holds, as far as keys lead into it: each path that
/// exists in the value, with the text at its end if a string stands there
/// and `None` if anything else does.
pub type JsonContents = Map<JsonPath, Option<Seq<char>>>;

/// What the JSON value `value` holds.
pub uninterp spec fn json_contents(value: serde_json::Value) -> JsonContents;

/// What the document holds that `serde_json::from_slice` reads from `bytes`,
/// or `None` where it reports an error.
pub uninterp spec fn json_document(bytes: Seq<u8>) -> Option<JsonContents>;

/// What stands under `key` in a value that holds `contents`.
pub open spec fn json_below(contents: JsonContents, key: Seq<char>) -> JsonContents {
    Map::new(
        |path: JsonPath| contents.dom().contains(seq![key] + path),
        |path: JsonPath| contents[seq![key] + path],
    )
}

/// Calls `serde_json::from_slice` for a `Value`. The claim: whether it
/// succeeds and what the value then holds is a function of the bytes alone,
/// named `json_document`.
#[verifier::external_body]
pub(crate) fn parse_document(bytes: &[u8]) -> (r: Result<serde_json::Value, serde_json::Error>)
    ensures
        match r {
            Ok(v) => json_document(bytes@) == Some(json_contents(v)),
            Err(_) => json_document(bytes@) is None,
        },
{
    serde_json::from_slice::<serde_json::Value>(bytes)
}

/// Calls `serde_json::Value::get` with a string key. The claim: it finds a
/// member if and only if the path of that one key exists in the value, and
/// the member holds what stands under the key.
#[verifier::external_body]
pub(crate) fn member<'a>(value: &'a serde_json::Value, key: &str) -> (r: Option<
    &'a serde_json::Value,
>)
    ensures
        match r {
            Some(v) => json_contents(*value).dom().contains(seq![key@]) && json_contents(*v)
                == json_below(json_contents(*value), key@),
            None => !json_contents(*value).dom().contains(seq![key@]),
        },
{
    value.get(key)
}

/// Calls `serde_json::Value::as_str` and copies the text. The claim: the
/// empty path exists in every value, and the text found is what stands
/// there.
#[verifier::external_body]
pub(crate) fn text_of(value: &serde_json::Value) -> (r: Option<String>)
    ensures
        match r {
            Some(s) => json_contents(*value).dom().contains(Seq::empty()) && json_contents(
                *value,
            )[Seq::empty()] == Some(s@),
            None => json_contents(*value).dom().contains(Seq::empty()) && json_contents(
                *value,
            )[Seq::empty()] is None,
        },
{
    value.as_str().map(str::to_string)
}

/// The JSON text that `serde_json::to_string` writes for a list of strings,
/// or `None` where it reports an error.
pub uninterp spec fn json_of_texts(list: Seq<Seq<char>>) -> Option<Seq<char>>;

/// The list of strings that `serde_json::from_str` reads from a JSON text, or
/// `None` where it reports an error.
pub uninterp spec fn texts_of_json(text: Seq<char>) -> Option<Seq<Seq<char>>>;

/// Calls `serde_json::to_string` on a list of strings. The claim: the
/// outcome is a function of the strings alone, named `json_of_texts`.
#[verifier::external_body]
pub(crate) fn texts_to_json(list: &Vec<String>) -> (r: Result<String, serde_json::Error>)
    ensures
        match r {
            Ok(text) => json_of_texts(texts(list@)) == Some(text@),
            Err(_) => json_of_texts(texts(list@)) is None,
        },
{
    serde_json::to_string(list)
}

/// Calls `serde_json::from_str` for a list of strings. The claim: the
/// outcome is a function of the text alone, named `texts_of_json`.
#[verifier::external_body]
pub(crate) fn texts_from_json(text: &str) -> (r: Result<Vec<String>, serde_json::Error>)
    ensures
        match r {
            Ok(list) => texts_of_json(text@) == Some(texts(list@)),
            Err(_) => texts_of_json(text@) is None,
        },
{
    serde_json::from_str::<Vec<String>>(text)
}

} // verus!
