//! The failures that one request/response cycle can end in.

use vstd::prelude::*;

verus! {

/// Why a cycle did not deliver a result. Every failure is final: nothing is
/// retried, and no partial data is handed out beside it.
#[derive(Clone, Copy, Debug, PartialEq, Eq, Structural)]
pub enum TransportError {
    /// The socket could not be opened, or the request was not written in full.
    ConnectionError,
    /// No data ever arrived, or draining went past its absolute bound.
    DrainTimeout,
    /// The raw buffer holds no blank line between metadata and body.
    MalformedResponse,
    /// The body carries no `value` entry.
    EnvelopeNotFound,
    /// The embedded payload is not base64.
    Base64DecodeError,
    /// The body is not JSON.
    JSONDecodeError,
}

/// Why a command did not give its result.
#[derive(Clone, Debug, PartialEq, Eq)]
pub enum CommandError {
    /// The cycle failed: no reply was drained, framed and read in full.
    Transport(TransportError),
    /// The reply, handed back where it reports an error or is not what the
    /// command expects.
    Reply(String),
}

} // verus!
