//! Splitting a drained buffer into metadata and body.

use crate::error::TransportError;
use crate::text::{
    ends_with, find_bytes_before, has_substring, lemma_first_index, lemma_split_at_first_of_concat,
    split_at_first,
};
use vstd::prelude::*;
use vstd::slice::slice_subrange;
use vstd::slice::slice_to_vec;

verus! {

/// The four bytes `\r\n\r\n` that part the metadata from the body.
pub open spec fn crlf_crlf() -> Seq<u8> {
    seq![13u8, 10u8, 13u8, 10u8]
}

/// A response cut at its first blank line: the status line and headers on one
/// side, the body, byte for byte, on the other.
pub struct FramedResponse {
    pub metadata: Vec<u8>,
    pub body: Vec<u8>,
}

/// `String::from_utf8_lossy` hands back the text that valid UTF-8 encodes;
/// of input that is not valid UTF-8 nothing is claimed.
#[verifier::external_body]
fn utf8_text_lossy(bytes: &[u8]) -> (r: String)
    ensures
        vstd::utf8::valid_utf8(bytes@) ==> r@ == vstd::utf8::decode_utf8(bytes@),
{
    String::from_utf8_lossy(bytes).into_owned()
}

/// `String::from_utf8` hands back the text that the bytes encode where they
/// are valid UTF-8, and fails where they are not.
#[verifier::external_body]
fn utf8_text(bytes: Vec<u8>) -> (r: Option<String>)
    ensures
        r matches Some(s) ==> vstd::utf8::valid_utf8(bytes@) && s@ == vstd::utf8::decode_utf8(
            bytes@,
        ),
        r is None ==> !vstd::utf8::valid_utf8(bytes@),
{
    String::from_utf8(bytes).ok()
}

impl FramedResponse {
    /// The metadata as text, for display. Bytes that are not UTF-8 are
    /// replaced, so only well-formed metadata comes back exactly.
    pub fn metadata_text(&self) -> (r: String)
        ensures
            vstd::utf8::valid_utf8(self.metadata@) ==> r@ == vstd::utf8::decode_utf8(
                self.metadata@,
            ),
    {
        utf8_text_lossy(self.metadata.as_slice())
    }
}

/// Cuts `raw` at the first `\r\n\r\n`: what stands before it is the metadata,
/// everything after it is the body. The body is never searched for a second
/// separator. A buffer without any separator is malformed.
pub fn split_metadata_and_body(raw: &[u8]) -> (r: Result<FramedResponse, TransportError>)
    ensures
        match r {
            Ok(f) => split_at_first(raw@, crlf_crlf()) == Some((f.metadata@, f.body@)),
            Err(e) => e == TransportError::MalformedResponse && split_at_first(raw@, crlf_crlf())
                is None,
        },
        r is Ok <==> has_substring(raw@, crlf_crlf()),
{
    let sep: [u8; 4] = [13, 10, 13, 10];
    assert(sep@ =~= crlf_crlf());
    match find_bytes_before(raw, sep.as_slice(), raw.len()) {
        Some(i) => {
            proof {
                lemma_first_index(raw@, crlf_crlf(), i as int);
            }
            let metadata = slice_to_vec(slice_subrange(raw, 0, i));
            let body = slice_to_vec(slice_subrange(raw, i + 4, raw.len()));
            Ok(FramedResponse { metadata, body })
        },
        None => {
            assert forall|j: int| !crate::text::occurs_at(raw@, crlf_crlf(), j) by {}
            Err(TransportError::MalformedResponse)
        },
    }
}

/// What the body of a drained response is as text.
pub open spec fn framed_text(raw: Seq<u8>) -> Result<Seq<char>, TransportError> {
    match split_at_first(raw, crlf_crlf()) {
        None => Err(TransportError::MalformedResponse),
        Some(parts) => if vstd::utf8::valid_utf8(parts.1) {
            Ok(vstd::utf8::decode_utf8(parts.1))
        } else {
            Err(TransportError::JSONDecodeError)
        },
    }
}

/// The body of a drained response as text, for the readers of replies. A
/// response without a blank line is malformed; a body that is not UTF-8 is
/// no JSON text.
pub fn body_text(raw: &[u8]) -> (r: Result<String, TransportError>)
    ensures
        match r {
            Ok(s) => framed_text(raw@) == Ok::<Seq<char>, TransportError>(s@),
            Err(e) => framed_text(raw@) == Err::<Seq<char>, TransportError>(e),
        },
{
    match split_metadata_and_body(raw) {
        Err(e) => Err(e),
        Ok(framed) => match utf8_text(framed.body) {
            Some(s) => Ok(s),
            None => Err(TransportError::JSONDecodeError),
        },
    }
}

/// A buffer built as metadata, separator, body splits back into exactly that
/// metadata and that body, whatever the body holds, provided the metadata
/// neither holds a separator nor ends with `\r\n`.
pub proof fn lemma_split_recovers_parts(metadata: Seq<u8>, body: Seq<u8>)
    requires
        !has_substring(metadata, crlf_crlf()),
        !ends_with(metadata, seq![13u8, 10u8]),
    ensures
        split_at_first(metadata + crlf_crlf() + body, crlf_crlf()) == Some((metadata, body)),
{
    assert(crlf_crlf() =~= seq![13u8, 10u8, 13u8, 10u8]);
    lemma_split_at_first_of_concat(metadata, body, 13u8, 10u8);
}

} // verus!
