//! One request/response cycle, from the request sent to the payload
//! extracted.
//!
//! The socket stays outside: a driver opens it, writes the request, polls
//! for the response and reports each step here. A cycle moves
//! `Idle → Sent → Draining → Framed → Extracted → Idle`; every failure is a
//! state of its own in which the cycle stays, and no payload is handed out
//! but that of a response drained, framed and extracted in full.

use crate::drain::{
    action_for, next, start, DrainAction, DrainModel, DrainPolicy, DrainStatus, ResponseDrainer,
};
use crate::envelope::{
    bytes_result, envelope_bytes, envelope_text, extract_binary, extract_text, text_result,
};
use crate::error::TransportError;
use crate::frame::{crlf_crlf, split_metadata_and_body, FramedResponse};
use crate::json::json_parse;
use crate::text::split_at_first;
use vstd::prelude::*;

verus! {

/// Which payload a call expects.
#[derive(Clone, Copy, Debug, PartialEq, Eq, Structural)]
pub enum Expectation {
    /// A JSON value, handed out as text.
    Text,
    /// A binary artifact embedded as base64.
    Binary,
}

/// What a cycle yields.
#[derive(Debug, PartialEq, Eq)]
pub enum EnvelopePayload {
    Text(String),
    Binary(Vec<u8>),
}

/// A payload as a mathematical value.
pub enum PayloadModel {
    Text(Seq<char>),
    Binary(Seq<u8>),
}

impl View for EnvelopePayload {
    type V = PayloadModel;

    open spec fn view(&self) -> PayloadModel {
        match *self {
            EnvelopePayload::Text(s) => PayloadModel::Text(s@),
            EnvelopePayload::Binary(b) => PayloadModel::Binary(b@),
        }
    }
}

/// Where a cycle stands.
#[derive(Clone, Copy, Debug, PartialEq, Eq, Structural)]
pub enum CycleState {
    Idle,
    Sent,
    Draining,
    Framed,
    Extracted,
    ConnectFailed,
    WriteFailed,
    DrainTimeout,
    MalformedResponse,
    EnvelopeNotFound,
    Base64DecodeError,
    JSONDecodeError,
}

/// The error that a failure state surfaces as.
pub open spec fn failure_of(state: CycleState) -> Option<TransportError> {
    match state {
        CycleState::ConnectFailed => Some(TransportError::ConnectionError),
        CycleState::WriteFailed => Some(TransportError::ConnectionError),
        CycleState::DrainTimeout => Some(TransportError::DrainTimeout),
        CycleState::MalformedResponse => Some(TransportError::MalformedResponse),
        CycleState::EnvelopeNotFound => Some(TransportError::EnvelopeNotFound),
        CycleState::Base64DecodeError => Some(TransportError::Base64DecodeError),
        CycleState::JSONDecodeError => Some(TransportError::JSONDecodeError),
        _ => None,
    }
}

/// The failure state that an error of framing or extraction leads to.
pub open spec fn state_of(e: TransportError) -> CycleState {
    match e {
        TransportError::ConnectionError => CycleState::ConnectFailed,
        TransportError::DrainTimeout => CycleState::DrainTimeout,
        TransportError::MalformedResponse => CycleState::MalformedResponse,
        TransportError::EnvelopeNotFound => CycleState::EnvelopeNotFound,
        TransportError::Base64DecodeError => CycleState::Base64DecodeError,
        TransportError::JSONDecodeError => CycleState::JSONDecodeError,
    }
}

/// What extraction makes of a body.
pub open spec fn extracted(expectation: Expectation, body: Seq<u8>) -> Result<
    PayloadModel,
    TransportError,
> {
    match expectation {
        Expectation::Text => match envelope_text(json_parse(body)) {
            Ok(s) => Ok(PayloadModel::Text(s)),
            Err(e) => Err(e),
        },
        Expectation::Binary => match envelope_bytes(body) {
            Ok(b) => Ok(PayloadModel::Binary(b)),
            Err(e) => Err(e),
        },
    }
}

/// What framing and extraction make of a drained buffer.
pub open spec fn concluded(expectation: Expectation, raw: Seq<u8>) -> Result<
    PayloadModel,
    TransportError,
> {
    match split_at_first(raw, crlf_crlf()) {
        None => Err(TransportError::MalformedResponse),
        Some(parts) => extracted(expectation, parts.1),
    }
}

/// The view of a payload result.
pub open spec fn payload_result(r: Result<EnvelopePayload, TransportError>) -> Result<
    PayloadModel,
    TransportError,
> {
    match r {
        Ok(p) => Ok(p@),
        Err(e) => Err(e),
    }
}

/// Extracts the payload that a call expects from a framed body.
pub fn extract(expectation: Expectation, body: &[u8]) -> (r: Result<
    EnvelopePayload,
    TransportError,
>)
    ensures
        payload_result(r) == extracted(expectation, body@),
{
    match expectation {
        Expectation::Text => match extract_text(body) {
            Ok(s) => Ok(EnvelopePayload::Text(s)),
            Err(e) => Err(e),
        },
        Expectation::Binary => match extract_binary(body) {
            Ok(b) => Ok(EnvelopePayload::Binary(b)),
            Err(e) => Err(e),
        },
    }
}

/// Frames a drained buffer and extracts the payload that a call expects.
pub fn conclude(expectation: Expectation, raw: &[u8]) -> (r: Result<
    EnvelopePayload,
    TransportError,
>)
    ensures
        payload_result(r) == concluded(expectation, raw@),
{
    match split_metadata_and_body(raw) {
        Err(e) => Err(e),
        Ok(framed) => extract(expectation, framed.body.as_slice()),
    }
}

/// The mathematical state of a cycle.
pub struct CycleModel {
    pub expectation: Expectation,
    pub state: CycleState,
    pub drain: DrainModel,
    /// The body, once the response is framed.
    pub body: Option<Seq<u8>>,
    /// The payload, once it is extracted.
    pub payload: Option<PayloadModel>,
}

/// One request/response cycle.
pub struct Cycle {
    expectation: Expectation,
    state: CycleState,
    drainer: ResponseDrainer,
    framed: Option<FramedResponse>,
    payload: Option<EnvelopePayload>,
}

impl View for Cycle {
    type V = CycleModel;

    closed spec fn view(&self) -> CycleModel {
        CycleModel {
            expectation: self.expectation,
            state: self.state,
            drain: self.drainer@,
            body: match self.framed {
                Some(f) => Some(f.body@),
                None => None,
            },
            payload: match self.payload {
                Some(p) => Some(p@),
                None => None,
            },
        }
    }
}

/// The state after the driver reported one poll of the socket to a cycle
/// that is draining; any other cycle stays as it is. A drain that completes
/// is framed at once, or found malformed.
pub open spec fn after_poll(m: CycleModel, read: Seq<u8>) -> CycleModel {
    if m.state != CycleState::Draining {
        m
    } else {
        let drain = next(m.drain, read);
        match drain.status {
            DrainStatus::Draining => CycleModel { drain, ..m },
            DrainStatus::TimedOut => CycleModel { drain, state: CycleState::DrainTimeout, ..m },
            DrainStatus::Complete => match split_at_first(drain.buffer, crlf_crlf()) {
                Some(parts) => CycleModel {
                    drain,
                    state: CycleState::Framed,
                    body: Some(parts.1),
                    ..m
                },
                None => CycleModel { drain, state: CycleState::MalformedResponse, ..m },
            },
        }
    }
}

/// The state after extraction from a framed cycle; any other cycle stays as
/// it is.
pub open spec fn after_extract(m: CycleModel) -> CycleModel {
    if m.state == CycleState::Framed && m.body is Some {
        match extracted(m.expectation, m.body->Some_0) {
            Ok(p) => CycleModel { state: CycleState::Extracted, payload: Some(p), ..m },
            Err(e) => CycleModel { state: state_of(e), ..m },
        }
    } else {
        m
    }
}

/// The poll that completes a drain, followed by extraction, leaves the
/// cycle where framing and extracting the drained buffer lead: extracted
/// with that payload, or in the failure state of that error. No other way
/// leads to a payload.
pub proof fn lemma_cycle_concludes(m: CycleModel, read: Seq<u8>)
    requires
        m.state == CycleState::Draining,
        next(m.drain, read).status == DrainStatus::Complete,
    ensures
        match concluded(m.expectation, next(m.drain, read).buffer) {
            Ok(p) => after_extract(after_poll(m, read)).state == CycleState::Extracted
                && after_extract(after_poll(m, read)).payload == Some(p),
            Err(e) => after_extract(after_poll(m, read)).state == state_of(e) && after_extract(
                after_poll(m, read),
            ).payload == m.payload,
        },
{
}

impl Cycle {
    /// The parts of the cycle fit together: the drain is well-formed and
    /// still going exactly while the cycle drains, a framed cycle holds a
    /// body, an extracted one a payload.
    pub closed spec fn wf(&self) -> bool {
        &&& self.drainer.wf()
        &&& self.state == CycleState::Draining ==> self.drainer@.status == DrainStatus::Draining
        &&& self.state == CycleState::Framed ==> self.framed is Some
        &&& self.state == CycleState::Extracted ==> self.payload is Some
    }

    /// An idle cycle for a call that expects `expectation`, to drain under
    /// `policy`.
    pub fn new(expectation: Expectation, policy: DrainPolicy) -> (r: Self)
        ensures
            r.wf(),
            r@ == (CycleModel {
                expectation,
                state: CycleState::Idle,
                drain: start(policy),
                body: None,
                payload: None,
            }),
    {
        Cycle {
            expectation,
            state: CycleState::Idle,
            drainer: ResponseDrainer::new(policy),
            framed: None,
            payload: None,
        }
    }

    /// Where the cycle stands.
    pub fn state(&self) -> (r: CycleState)
        ensures
            r == self@.state,
    {
        self.state
    }

    /// The socket could not be opened: an idle cycle has failed.
    pub fn connect_failed(&mut self)
        requires
            old(self).wf(),
        ensures
            final(self).wf(),
            final(self)@ == (if old(self)@.state == CycleState::Idle {
                CycleModel { state: CycleState::ConnectFailed, ..old(self)@ }
            } else {
                old(self)@
            }),
    {
        if self.state == CycleState::Idle {
            self.state = CycleState::ConnectFailed;
        }
    }

    /// The request was not written in full: an idle cycle has failed.
    pub fn write_failed(&mut self)
        requires
            old(self).wf(),
        ensures
            final(self).wf(),
            final(self)@ == (if old(self)@.state == CycleState::Idle {
                CycleModel { state: CycleState::WriteFailed, ..old(self)@ }
            } else {
                old(self)@
            }),
    {
        if self.state == CycleState::Idle {
            self.state = CycleState::WriteFailed;
        }
    }

    /// The request was written in full: an idle cycle is sent.
    pub fn sent(&mut self)
        requires
            old(self).wf(),
        ensures
            final(self).wf(),
            final(self)@ == (if old(self)@.state == CycleState::Idle {
                CycleModel { state: CycleState::Sent, ..old(self)@ }
            } else {
                old(self)@
            }),
    {
        if self.state == CycleState::Idle {
            self.state = CycleState::Sent;
        }
    }

    /// Starts to drain a cycle that is sent. A drain that has no poll to
    /// spend times out at once.
    pub fn begin_drain(&mut self) -> (action: DrainAction)
        requires
            old(self).wf(),
        ensures
            final(self).wf(),
            final(self)@ == (if old(self)@.state == CycleState::Sent {
                if old(self)@.drain.status == DrainStatus::Draining {
                    CycleModel { state: CycleState::Draining, ..old(self)@ }
                } else {
                    CycleModel { state: CycleState::DrainTimeout, ..old(self)@ }
                }
            } else {
                old(self)@
            }),
            action == (if final(self)@.state == CycleState::Draining {
                DrainAction::Poll
            } else {
                DrainAction::GiveUp
            }),
    {
        if self.state == CycleState::Sent {
            match self.drainer.status() {
                DrainStatus::Draining => {
                    self.state = CycleState::Draining;
                },
                _ => {
                    self.state = CycleState::DrainTimeout;
                },
            }
        }
        if self.state == CycleState::Draining {
            DrainAction::Poll
        } else {
            DrainAction::GiveUp
        }
    }

    /// Reports one poll of the socket, as [`ResponseDrainer::step`] takes
    /// it. A response that completes is framed at once. The answer says what
    /// the driver does next: it stops polling once the cycle no longer
    /// drains.
    pub fn poll(&mut self, read: &[u8]) -> (action: DrainAction)
        requires
            old(self).wf(),
        ensures
            final(self).wf(),
            final(self)@ =~= after_poll(old(self)@, read@),
            action == (match final(self)@.state {
                CycleState::Draining => action_for(final(self)@.drain, read@),
                CycleState::Framed => DrainAction::Deliver,
                _ => DrainAction::GiveUp,
            }),
    {
        if self.state != CycleState::Draining {
            return match self.state {
                CycleState::Framed => DrainAction::Deliver,
                _ => DrainAction::GiveUp,
            };
        }
        let action = self.drainer.step(read);
        match self.drainer.status() {
            DrainStatus::Draining => action,
            DrainStatus::TimedOut => {
                self.state = CycleState::DrainTimeout;
                DrainAction::GiveUp
            },
            DrainStatus::Complete => {
                match split_metadata_and_body(self.drainer.received().as_slice()) {
                    Ok(framed) => {
                        self.framed = Some(framed);
                        self.state = CycleState::Framed;
                        DrainAction::Deliver
                    },
                    Err(_) => {
                        self.state = CycleState::MalformedResponse;
                        DrainAction::GiveUp
                    },
                }
            },
        }
    }

    /// Extracts the payload from a framed cycle.
    pub fn extract(&mut self)
        requires
            old(self).wf(),
        ensures
            final(self).wf(),
            final(self)@ =~= after_extract(old(self)@),
    {
        if self.state == CycleState::Framed {
            let outcome = match &self.framed {
                Some(framed) => extract(self.expectation, framed.body.as_slice()),
                None => Err(TransportError::MalformedResponse),
            };
            match outcome {
                Ok(p) => {
                    self.payload = Some(p);
                    self.state = CycleState::Extracted;
                },
                Err(e) => {
                    self.state = match e {
                        TransportError::ConnectionError => CycleState::ConnectFailed,
                        TransportError::DrainTimeout => CycleState::DrainTimeout,
                        TransportError::MalformedResponse => CycleState::MalformedResponse,
                        TransportError::EnvelopeNotFound => CycleState::EnvelopeNotFound,
                        TransportError::Base64DecodeError => CycleState::Base64DecodeError,
                        TransportError::JSONDecodeError => CycleState::JSONDecodeError,
                    };
                },
            }
        }
    }

    /// Ends the cycle. The payload comes out of a cycle that is extracted,
    /// the error of its state out of one that has failed; a cycle given up
    /// anywhere on the way has not connected, or has timed out.
    pub fn finish(self) -> (r: Result<EnvelopePayload, TransportError>)
        requires
            self.wf(),
        ensures
            match r {
                Ok(p) => self@.state == CycleState::Extracted && self@.payload == Some(p@),
                Err(e) => self@.state != CycleState::Extracted && e == (match failure_of(
                    self@.state,
                ) {
                    Some(f) => f,
                    None => if self@.state == CycleState::Idle {
                        TransportError::ConnectionError
                    } else {
                        TransportError::DrainTimeout
                    },
                }),
            },
    {
        match self.state {
            CycleState::Extracted => match self.payload {
                Some(p) => Ok(p),
                None => Err(TransportError::DrainTimeout),
            },
            CycleState::ConnectFailed => Err(TransportError::ConnectionError),
            CycleState::WriteFailed => Err(TransportError::ConnectionError),
            CycleState::Idle => Err(TransportError::ConnectionError),
            CycleState::MalformedResponse => Err(TransportError::MalformedResponse),
            CycleState::EnvelopeNotFound => Err(TransportError::EnvelopeNotFound),
            CycleState::Base64DecodeError => Err(TransportError::Base64DecodeError),
            CycleState::JSONDecodeError => Err(TransportError::JSONDecodeError),
            _ => Err(TransportError::DrainTimeout),
        }
    }
}

} // verus!
