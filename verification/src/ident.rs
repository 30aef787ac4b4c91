//! Identifier validation.
//!
//! Every identifier that enters the protocol is trimmed and checked to be
//! non-empty at the point an operation accepts it.  Each kind has its own
//! entry point so error messages name the specific kind.  No normalization
//! happens beyond trimming: case and internal characters are preserved
//! verbatim, including characters meaningful to topic addressing (callers
//! are responsible for not embedding the bus delimiter in identifiers).

use crate::text::{all_space, spec_trim, trim};
use crate::CtlError;
use vstd::prelude::*;

verus! {

/// The distinct identifier kinds used throughout the protocol.
#[derive(Debug, Clone, Copy, PartialEq, Eq, Structural)]
pub enum IdentifierKind {
    HostId,
    ComponentId,
    ComponentRef,
    ProviderId,
    ProviderRef,
    LinkName,
}

/// The message a validator reports when the identifier of this kind is
/// empty or whitespace-only.
pub open spec fn spec_empty_message(kind: IdentifierKind) -> Seq<char> {
    match kind {
        IdentifierKind::HostId => "Host ID cannot be empty"@,
        IdentifierKind::ComponentId => "Component ID cannot be empty"@,
        IdentifierKind::ComponentRef => "Component OCI reference cannot be empty"@,
        IdentifierKind::ProviderId => "Provider ID cannot be empty"@,
        IdentifierKind::ProviderRef => "Provider OCI reference cannot be empty"@,
        IdentifierKind::LinkName => "Link Name cannot be empty"@,
    }
}

/// What `validate` returns: `Ok` with the trimmed string exactly when the
/// input holds at least one non-whitespace character.
pub open spec fn validates(kind: IdentifierKind, raw: Seq<char>, r: Result<String, CtlError>) -> bool {
    match r {
        Ok(t) => !all_space(raw) && t@ == spec_trim(raw),
        Err(e) => all_space(raw) && e == CtlError::InvalidIdentifier(kind),
    }
}

impl IdentifierKind {
    /// The message reported when an identifier of this kind is rejected.
    pub fn empty_message(&self) -> (r: String)
        ensures
            r@ == spec_empty_message(*self),
    {
        match self {
            IdentifierKind::HostId => String::from_str("Host ID cannot be empty"),
            IdentifierKind::ComponentId => String::from_str("Component ID cannot be empty"),
            IdentifierKind::ComponentRef => String::from_str(
                "Component OCI reference cannot be empty",
            ),
            IdentifierKind::ProviderId => String::from_str("Provider ID cannot be empty"),
            IdentifierKind::ProviderRef => String::from_str(
                "Provider OCI reference cannot be empty",
            ),
            IdentifierKind::LinkName => String::from_str("Link Name cannot be empty"),
        }
    }

    /// Trims `raw` and fails with `InvalidIdentifier` if nothing is left.
    pub fn validate(kind: IdentifierKind, raw: &str) -> (r: Result<String, CtlError>)
        ensures
            validates(kind, raw@, r),
    {
        let t = trim(raw);
        if t.as_str().unicode_len() == 0 {
            proof {
                crate::text::lemma_trim_empty_iff_all_space(raw@);
            }
            Err(CtlError::InvalidIdentifier(kind))
        } else {
            proof {
                crate::text::lemma_trim_empty_iff_all_space(raw@);
            }
            Ok(t)
        }
    }

    /// Validates a host id.
    pub fn is_host_id(raw: &str) -> (r: Result<String, CtlError>)
        ensures
            validates(IdentifierKind::HostId, raw@, r),
    {
        Self::validate(IdentifierKind::HostId, raw)
    }

    /// Validates a component id.
    pub fn is_component_id(raw: &str) -> (r: Result<String, CtlError>)
        ensures
            validates(IdentifierKind::ComponentId, raw@, r),
    {
        Self::validate(IdentifierKind::ComponentId, raw)
    }

    /// Validates a component OCI reference.
    pub fn is_component_ref(raw: &str) -> (r: Result<String, CtlError>)
        ensures
            validates(IdentifierKind::ComponentRef, raw@, r),
    {
        Self::validate(IdentifierKind::ComponentRef, raw)
    }

    /// Validates a provider id.
    pub fn is_provider_id(raw: &str) -> (r: Result<String, CtlError>)
        ensures
            validates(IdentifierKind::ProviderId, raw@, r),
    {
        Self::validate(IdentifierKind::ProviderId, raw)
    }

    /// Validates a provider OCI reference.
    pub fn is_provider_ref(raw: &str) -> (r: Result<String, CtlError>)
        ensures
            validates(IdentifierKind::ProviderRef, raw@, r),
    {
        Self::validate(IdentifierKind::ProviderRef, raw)
    }

    /// Validates a link name.
    pub fn is_link_name(raw: &str) -> (r: Result<String, CtlError>)
        ensures
            validates(IdentifierKind::LinkName, raw@, r),
    {
        Self::validate(IdentifierKind::LinkName, raw)
    }
}

/// Validation never changes a string that has no surrounding whitespace and
/// at least one non-whitespace character, and always rejects whitespace-only
/// input: the two halves of the validator's contract, stated together.
pub proof fn lemma_validate_law(kind: IdentifierKind, raw: Seq<char>, r: Result<String, CtlError>)
    requires
        validates(kind, raw, r),
    ensures
        all_space(raw) <==> (r matches Err(e) && e == CtlError::InvalidIdentifier(kind)),
        !all_space(raw) ==> (r matches Ok(t) && t@ == spec_trim(raw)),
{
}

/// The base text of an error, with no operation context.
pub open spec fn spec_message(e: CtlError) -> Seq<char> {
    match e {
        CtlError::InvalidIdentifier(kind) => spec_empty_message(kind),
        CtlError::TimedOut => "timed out"@,
        CtlError::Transport(m) => "transport error: "@ + m@,
        CtlError::Deserialize => "deserialization failed"@,
    }
}

impl CtlError {
    /// A human-readable description of the error.
    pub fn message(&self) -> (r: String)
        ensures
            r@ == spec_message(*self),
    {
        match self {
            CtlError::InvalidIdentifier(kind) => kind.empty_message(),
            CtlError::TimedOut => String::from_str("timed out"),
            CtlError::Transport(m) => {
                let mut s = String::from_str("transport error: ");
                s.append(m.as_str());
                s
            },
            CtlError::Deserialize => String::from_str("deserialization failed"),
        }
    }

    /// The user-visible report of a failed call: validation errors stand
    /// on their own words, every other error is prefixed with the
    /// operation's context (the `context` of the prepared request), as
    /// in `Did not receive stop provider acknowledgement: timed out`.
    pub fn describe(&self, context: &str) -> (r: String)
        ensures
            *self matches CtlError::InvalidIdentifier(k) ==> r@ == spec_empty_message(k),
            !(*self is InvalidIdentifier) && context@.len() > 0 ==> r@ == context@ + ": "@
                + spec_message(*self),
            !(*self is InvalidIdentifier) && context@.len() == 0 ==> r@ == spec_message(*self),
    {
        match self {
            CtlError::InvalidIdentifier(kind) => kind.empty_message(),
            _ => {
                if context.unicode_len() == 0 {
                    self.message()
                } else {
                    let mut s = String::from_str(context);
                    s.append(": ");
                    let m = self.message();
                    s.append(m.as_str());
                    s
                }
            },
        }
    }
}

} // verus!
