//! What the gateway reads from JSON text and base64 payloads, through serde_json and base64.
use vstd::prelude::*;

verus! {

/// Whether serde_json accepts `text` as one JSON value.
pub uninterp spec fn json_document(text: Seq<char>) -> bool;

/// The string found at a JSON pointer of a JSON document, when there is one.
pub uninterp spec fn json_string_at(doc: Seq<char>, pointer: Seq<char>) -> Option<Seq<char>>;

/// The bytes that standard base64 (with padding) decodes `s` to, when `s` is valid.
pub uninterp spec fn base64_decoded(s: Seq<char>) -> Option<Seq<u8>>;

/// The characters of an optional string.
pub open spec fn opt_chars(o: Option<String>) -> Option<Seq<char>> {
    match o {
        Some(s) => Some(s@),
        None => None,
    }
}

/// Relies on `serde_json::from_str`: it succeeds exactly on text that holds one JSON value.
#[verifier::external_body]
pub(crate) fn is_json(text: &str) -> (r: bool)
    ensures
        r == json_document(text@),
{
    serde_json::from_str::<serde_json::Value>(text).is_ok()
}

/// Relies on `serde_json::Value::pointer` and `as_str` on the parsed document: the string
/// at `pointer`, and nothing where the text is no JSON.
#[verifier::external_body]
pub(crate) fn string_at(doc: &str, pointer: &str) -> (r: Option<String>)
    ensures
        opt_chars(r) == json_string_at(doc@, pointer@),
        !json_document(doc@) ==> r is None,
{
    match serde_json::from_str::<serde_json::Value>(doc) {
        Ok(v) => v.pointer(pointer).and_then(|x| x.as_str()).map(|s| s.to_string()),
        Err(_) => None,
    }
}

/// Relies on `base64::Engine::decode` with the `STANDARD` engine.
#[verifier::external_body]
pub(crate) fn decode_base64(s: &str) -> (r: Option<Vec<u8>>)
    ensures
        match r {
            Some(b) => base64_decoded(s@) == Some(b@),
            None => base64_decoded(s@) is None,
        },
{
    base64::Engine::decode(&base64::engine::general_purpose::STANDARD, s).ok()
}

/// Relies on `String::from_utf8`: it accepts exactly valid UTF-8 and decodes it.
#[verifier::external_body]
pub(crate) fn utf8_text(b: Vec<u8>) -> (r: Option<String>)
    ensures
        r is Some <==> vstd::utf8::valid_utf8(b@),
        r matches Some(s) ==> s@ == vstd::utf8::decode_utf8(b@),
{
    String::from_utf8(b).ok()
}

} // verus!
