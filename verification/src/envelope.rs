//! Pulling the `value` payload out of a framed body.
//!
//! Every body is expected to be a JSON object with a top-level `value`
//! entry. The text path parses the body; the binary path does not, since the
//! payload may be large: it looks for the opening of the envelope near the
//! start of the body and takes what follows as base64.

use crate::error::TransportError;
use crate::json::{json_compact, json_entry, json_from_slice, json_parse, json_text, json_tree, tree_entry, JsonTree};
use crate::text::{find_bytes_before, first_occurrence, lemma_first_index, first_index, occurs_at};
use vstd::prelude::*;
use vstd::slice::slice_subrange;
use vstd::string::*;

verus! {

/// `base64::DecodeError`, carried as it is.
#[verifier::external_type_specification]
#[verifier::external_body]
pub struct ExDecodeError(base64::DecodeError);

/// How far into a body the opening of the envelope is looked for.
pub const SCAN_WINDOW: usize = 400;

/// How many bytes at the end of a body belong to the envelope's closing and
/// not to the payload.
pub const TRAILER_LEN: usize = 2;

/// The bytes `{"value":"` that open an envelope with a string payload.
pub open spec fn envelope_opening() -> Seq<u8> {
    seq![123u8, 34u8, 118u8, 97u8, 108u8, 117u8, 101u8, 34u8, 58u8, 34u8]
}

/// The body that reports success with nothing to return.
pub open spec fn success_marker() -> Seq<char> {
    "{\"value\":null}"@
}

/// What `base64::decode` makes of a text: the bytes it encodes, or nothing
/// where the text is not base64 in the standard alphabet.
pub uninterp spec fn base64_decoding(text: Seq<u8>) -> Option<Seq<u8>>;

/// `base64::decode`. The contract names the outcome; it does not say which
/// texts decode. Texts so long that the crate's own length arithmetic would
/// overflow are left out.
#[verifier::external_body]
fn base64_decode(text: &[u8]) -> (r: Result<Vec<u8>, base64::DecodeError>)
    requires
        text@.len() + 7 <= usize::MAX,
    ensures
        r matches Ok(bytes) ==> base64_decoding(text@) == Some(bytes@),
        r is Err ==> base64_decoding(text@) is None,
{
    base64::decode(text)
}

/// The text that the `value` entry of a document stands for: the content of
/// a string as it is, the compact JSON text of anything else.
pub open spec fn value_text(entry: JsonTree) -> Seq<char> {
    match entry {
        JsonTree::Text(s) => s,
        other => json_text(other),
    }
}

/// What the text path yields for a parsed body, or for a body that did not
/// parse.
pub open spec fn envelope_text(parsed: Option<JsonTree>) -> Result<Seq<char>, TransportError> {
    match parsed {
        None => Err(TransportError::JSONDecodeError),
        Some(doc) => match tree_entry(doc, "value"@) {
            None => Err(TransportError::EnvelopeNotFound),
            Some(entry) => Ok(value_text(entry)),
        },
    }
}

/// The view of a text result.
pub open spec fn text_result(r: Result<String, TransportError>) -> Result<Seq<char>, TransportError> {
    match r {
        Ok(s) => Ok(s@),
        Err(e) => Err(e),
    }
}

/// The text path on a parsed body: the top-level `value` entry, unquoted
/// where it is a string, as compact JSON text where it is anything else.
/// A document without that entry, an array or a scalar among them, holds no
/// envelope.
pub fn envelope_value_text(doc: &serde_json::Value) -> (r: Result<String, TransportError>)
    ensures
        text_result(r) == envelope_text(Some(json_tree(*doc))),
{
    match json_entry(doc, "value") {
        None => Err(TransportError::EnvelopeNotFound),
        Some(entry) => match entry.as_str() {
            Some(s) => Ok(String::from_str(s)),
            None => Ok(json_compact(entry)),
        },
    }
}

/// The text path: parses the body as JSON and hands out its `value` entry as
/// [`envelope_value_text`] does. A body that is not JSON is a decode error.
pub fn extract_text(body: &[u8]) -> (r: Result<String, TransportError>)
    ensures
        text_result(r) == envelope_text(json_parse(body@)),
{
    match json_from_slice(body) {
        Err(_) => Err(TransportError::JSONDecodeError),
        Ok(doc) => envelope_value_text(&doc),
    }
}

/// Where the payload of the binary path lies in a body: from just past the
/// opening of the envelope to two bytes before the end. There is none where
/// the opening does not start within the scan window, or where the body ends
/// before the payload and its trailer fit.
pub open spec fn payload_range(body: Seq<u8>) -> Option<(int, int)> {
    if exists|i: int| 0 <= i < SCAN_WINDOW && occurs_at(body, envelope_opening(), i) {
        let start = first_index(body, envelope_opening()) + envelope_opening().len();
        if start + TRAILER_LEN <= body.len() {
            Some((start, body.len() - TRAILER_LEN))
        } else {
            None
        }
    } else {
        None
    }
}

/// Finds the payload of the binary path by a bounded scan, without parsing.
pub fn locate_payload(body: &[u8]) -> (r: Result<(usize, usize), TransportError>)
    ensures
        match r {
            Ok((start, end)) => payload_range(body@) == Some((start as int, end as int))
                && envelope_opening().len() <= start <= end <= body@.len(),
            Err(e) => e == TransportError::EnvelopeNotFound && payload_range(body@) is None,
        },
{
    let opening: [u8; 10] = [123, 34, 118, 97, 108, 117, 101, 34, 58, 34];
    assert(opening@ =~= envelope_opening());
    match find_bytes_before(body, opening.as_slice(), SCAN_WINDOW) {
        None => Err(TransportError::EnvelopeNotFound),
        Some(i) => {
            proof {
                lemma_first_index(body@, envelope_opening(), i as int);
            }
            let start: usize = i + 10;
            if body.len() - start < TRAILER_LEN {
                Err(TransportError::EnvelopeNotFound)
            } else {
                Ok((start, body.len() - TRAILER_LEN))
            }
        },
    }
}

/// What decoding a payload yields.
pub open spec fn decoded(text: Seq<u8>) -> Result<Seq<u8>, TransportError> {
    match base64_decoding(text) {
        Some(bytes) => Ok(bytes),
        None => Err(TransportError::Base64DecodeError),
    }
}

/// The view of a binary result.
pub open spec fn bytes_result(r: Result<Vec<u8>, TransportError>) -> Result<Seq<u8>, TransportError> {
    match r {
        Ok(b) => Ok(b@),
        Err(e) => Err(e),
    }
}

/// Decodes a base64 payload into the artifact it carries.
pub fn decode_payload(text: &[u8]) -> (r: Result<Vec<u8>, TransportError>)
    requires
        text@.len() + 7 <= usize::MAX,
    ensures
        bytes_result(r) == decoded(text@),
{
    match base64_decode(text) {
        Ok(bytes) => Ok(bytes),
        Err(_) => Err(TransportError::Base64DecodeError),
    }
}

/// What the binary path yields for a body.
pub open spec fn envelope_bytes(body: Seq<u8>) -> Result<Seq<u8>, TransportError> {
    match payload_range(body) {
        None => Err(TransportError::EnvelopeNotFound),
        Some((start, end)) => decoded(body.subrange(start, end)),
    }
}

/// The binary path: takes what lies between the opening of the envelope and
/// the last two bytes of the body as base64 and decodes it.
pub fn extract_binary(body: &[u8]) -> (r: Result<Vec<u8>, TransportError>)
    ensures
        bytes_result(r) == envelope_bytes(body@),
{
    match locate_payload(body) {
        Err(e) => Err(e),
        Ok((start, end)) => {
            decode_payload(slice_subrange(body, start, end))
        },
    }
}

/// Whether a body is the marker of success with nothing returned: exactly
/// the text `{"value":null}`.
pub fn is_success_marker(body: &str) -> (r: bool)
    ensures
        r == (body@ == success_marker()),
{
    let marker = String::from_str("{\"value\":null}");
    let given = String::from_str(body);
    given == marker
}

} // verus!
