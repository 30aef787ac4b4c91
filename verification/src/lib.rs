//! Client-side protocol engine for a lattice control plane.
//!
//! A fleet of independent hosts is coordinated over an asynchronous
//! publish/subscribe message bus.  This crate holds the verified core of the
//! client: identifier validation, deterministic topic addressing, the
//! envelope wire codec, and the decision logic of the request-reply engine,
//! the auction engine and the event stream aggregator.  The bus itself, and
//! every await, lives outside this crate; callers hand the results of bus
//! operations to the functions here as plain values.

pub mod auction;
pub mod client;
pub mod commands;
pub mod envelope;
pub mod events;
pub mod ident;
pub mod json;
pub mod otel;
pub mod request;
pub mod text;
pub mod topic;

use vstd::prelude::*;

verus! {

/// The outcome kinds of a control-plane call that did not succeed.
///
/// A transport failure is never represented inside an envelope: it is a
/// distinct error outcome of the call itself.
#[derive(Debug, Clone, PartialEq, Eq)]
pub enum CtlError {
    /// An identifier was empty or whitespace-only; never retryable.
    InvalidIdentifier(crate::ident::IdentifierKind),
    /// The bus reported a publish/subscribe/connection failure; not retried.
    Transport(String),
    /// No reply arrived within the call's timeout.
    TimedOut,
    /// A reply payload could not be decoded.
    Deserialize,
}

} // verus!
