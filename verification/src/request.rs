//! Request-reply engine: the decision layer.
//!
//! One addressed message is sent and exactly one reply awaited within a
//! caller-supplied timeout; the transport work happens outside this crate,
//! which receives the outcome as a plain value.  The mapping here fixes
//! what each outcome means: a timeout is a typed error, never silently
//! treated as success; a transport failure is surfaced without retrying,
//! since command execution is not guaranteed idempotent; and only a reply
//! that decodes to an envelope counts as success.  An envelope whose
//! `response` is absent is still a success — distinguishing "nothing to
//! report" from every failure is the caller-visible point of the design.

use crate::envelope::{decode_envelope, spec_decode, Envelope};
use crate::CtlError;
use vstd::prelude::*;

verus! {

/// What the bus handed back for one request.
#[derive(Debug, Clone, PartialEq, Eq)]
pub enum BusReply {
    /// The one correlated reply arrived in time, with this payload text.
    Reply(String),
    /// The timeout elapsed with no reply.
    TimedOut,
    /// The bus reported a publish/connection failure, described here.
    Transport(String),
}

/// What completing a request yields for each bus outcome.
pub open spec fn spec_complete(outcome: BusReply) -> Result<
    crate::envelope::EnvelopeView,
    CtlError,
> {
    match outcome {
        BusReply::Reply(p) => match spec_decode(p@) {
            Some(v) => Ok(v),
            None => Err(CtlError::Deserialize),
        },
        BusReply::TimedOut => Err(CtlError::TimedOut),
        BusReply::Transport(m) => Err(CtlError::Transport(m)),
    }
}

/// Turns the bus outcome of one request into the call's result: at most
/// one decoded envelope, `TimedOut` exactly when no reply arrived in
/// time, `Transport` exactly when the bus failed, and `Deserialize`
/// exactly when the reply was not an envelope.
pub fn complete_request(outcome: BusReply) -> (r: Result<Envelope, CtlError>)
    ensures
        match spec_complete(outcome) {
            Ok(v) => r matches Ok(env) && env@ == v,
            Err(e) => r matches Err(e2) && e2 == e,
        },
{
    match outcome {
        BusReply::Reply(p) => decode_envelope(p.as_str()),
        BusReply::TimedOut => Err(CtlError::TimedOut),
        BusReply::Transport(m) => Err(CtlError::Transport(m)),
    }
}

/// A transport failure and an envelope that succeeds with nothing to
/// report can never be confused: the one is an `Err` of the call, the
/// other an `Ok` envelope with `success` set and no payload.
pub proof fn lemma_absent_distinct_from_transport(p: String, m: String)
    requires
        spec_decode(p@) matches Some(v) && v.success && v.response is None,
    ensures
        spec_complete(BusReply::Reply(p)) matches Ok(v) && v.success && v.response is None,
        spec_complete(BusReply::Transport(m)) is Err,
{
}

} // verus!
