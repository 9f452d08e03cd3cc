//! Encodings that tokens and attachments pass through: base64, UTF-8 and
//! the entries of a JSON object.

use vstd::prelude::*;
use base64::Engine;
use vstd::utf8::{decode_utf8, valid_utf8};

verus! {

/// What the standard base64 engine of the base64 crate writes for the
/// bytes of a text.
pub uninterp spec fn base64_encoded(input: Seq<char>) -> Seq<char>;

/// What the standard base64 engine of the base64 crate reads from a text;
/// none for a text that is not base64.
pub uninterp spec fn base64_decoded(input: Seq<char>) -> Option<Seq<u8>>;

/// The entries of the JSON object that serde_json reads from a text, in
/// the order of their keys: each key with its value written as JSON. A
/// text that is no JSON object has no entries.
pub uninterp spec fn json_object_entries_of(text: Seq<char>) -> Seq<(Seq<char>, Seq<char>)>;

/// A key of a JSON object and its value, written as JSON.
#[derive(Clone, Debug, PartialEq, Eq)]
pub struct JsonEntry {
    pub key: String,
    pub value: String,
}

/// The key and the value of each entry, in the order of the entries.
pub open spec fn entry_pairs(entries: Seq<JsonEntry>) -> Seq<(Seq<char>, Seq<char>)> {
    entries.map_values(|e: JsonEntry| (e.key@, e.value@))
}

/// Calls `base64::Engine::encode` on the standard engine. The result is
/// named, not described: it is the base64 text of the bytes of the input,
/// and depends on the input alone. The call gives up only on an input of
/// more than three quarters of the addressable bytes, which no text has.
#[verifier::external_body]
pub(crate) fn base64_encode(input: &str) -> (res: String)
    ensures
        res@ == base64_encoded(input@),
{
    base64::engine::general_purpose::STANDARD.encode(input)
}

/// Calls `base64::Engine::decode` on the standard engine. The result is
/// named, not described: it is the bytes that the text stands for, or none
/// if the crate rejects the text, and depends on the text alone.
#[verifier::external_body]
pub(crate) fn base64_decode(input: &str) -> (res: Option<Vec<u8>>)
    ensures
        match res {
            Some(bytes) => base64_decoded(input@) == Some(bytes@),
            None => base64_decoded(input@) is None,
        },
{
    match base64::engine::general_purpose::STANDARD.decode(input) {
        Ok(bytes) => Some(bytes),
        Err(_) => None,
    }
}

/// Calls `String::from_utf8`: the text that the bytes encode, or none if
/// they are not valid UTF-8.
#[verifier::external_body]
pub(crate) fn string_from_utf8(bytes: Vec<u8>) -> (res: Option<String>)
    ensures
        match res {
            Some(text) => valid_utf8(bytes@) && text@ == decode_utf8(bytes@),
            None => !valid_utf8(bytes@),
        },
{
    match String::from_utf8(bytes) {
        Ok(text) => Some(text),
        Err(_) => None,
    }
}

/// Calls `serde_json::from_str` for a map from keys to values, and writes
/// each value with its own `to_string`. The result is named, not
/// described: it is what serde_json makes of the text, and depends on the
/// text alone. A text that serde_json does not read as an object gives no
/// entries.
#[verifier::external_body]
pub(crate) fn json_object_entries(text: &str) -> (res: Vec<JsonEntry>)
    ensures
        entry_pairs(res@) == json_object_entries_of(text@),
{
    match serde_json::from_str::<std::collections::BTreeMap<String, serde_json::Value>>(text) {
        Ok(map) => map.into_iter().map(
            |(key, value)| JsonEntry { key, value: value.to_string() },
        ).collect(),
        Err(_) => Vec::new(),
    }
}

} // verus!
