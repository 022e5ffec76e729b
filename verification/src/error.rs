//! Outcomes and failures of activity processing.

use vstd::prelude::*;
use vstd::string::*;

verus! {

/// Why the domain policy turned a domain away.
#[derive(Clone, Copy, Debug, PartialEq, Eq, Structural)]
pub enum DenyReason {
    /// Federation is switched off for this instance.
    FederationDisabled,
    /// The identifier's scheme is not the configured protocol.
    InvalidScheme,
    /// The domain is on the blocklist.
    DomainBlocked,
    /// Strict mode, and the domain is neither allowed nor local.
    ForbiddenByStrictAllowlist,
    /// Permissive mode, and the domain is not on the allowlist.
    DomainNotInAllowlist,
}

impl DenyReason {
    /// The text that goes with each reason.
    pub open spec fn message_spec(self) -> Seq<char> {
        match self {
            DenyReason::FederationDisabled => "federation disabled"@,
            DenyReason::InvalidScheme => "invalid scheme"@,
            DenyReason::DomainBlocked => "domain blocked"@,
            DenyReason::ForbiddenByStrictAllowlist => "forbidden by strict allowlist"@,
            DenyReason::DomainNotInAllowlist => "domain not in allowlist"@,
        }
    }

    pub fn message(&self) -> (text: String)
        ensures
            text@ == self.message_spec(),
    {
        match self {
            DenyReason::FederationDisabled => String::from_str("federation disabled"),
            DenyReason::InvalidScheme => String::from_str("invalid scheme"),
            DenyReason::DomainBlocked => String::from_str("domain blocked"),
            DenyReason::ForbiddenByStrictAllowlist => String::from_str(
                "forbidden by strict allowlist",
            ),
            DenyReason::DomainNotInAllowlist => String::from_str("domain not in allowlist"),
        }
    }
}

/// Why an activity was not applied.
#[derive(Clone, Copy, Debug, PartialEq, Eq, Structural)]
pub enum FederationError {
    /// A required field is missing, an identifier does not parse, or the kind is unknown.
    MalformedActivity,
    /// Two fields that must name the same actor do not.
    ActorMismatch,
    /// The domain policy denied the activity.
    DomainRejected(DenyReason),
    /// The actor or the object is not known here.
    ObjectNotFound,
    /// The actor may not do this: a locally hosted community cannot be removed from outside.
    Forbidden,
    /// The object's kind is not supported by this operation.
    NotImplemented,
    /// The store failed; passed on unchanged.
    StorageFailure,
}

impl FederationError {
    pub open spec fn message_spec(self) -> Seq<char> {
        match self {
            FederationError::MalformedActivity => "malformed activity"@,
            FederationError::ActorMismatch => "actor mismatch"@,
            FederationError::DomainRejected(reason) => reason.message_spec(),
            FederationError::ObjectNotFound => "object not found"@,
            FederationError::Forbidden => "only local admin can remove community"@,
            FederationError::NotImplemented => "not implemented"@,
            FederationError::StorageFailure => "storage failure"@,
        }
    }

    /// The text of the failure, for logs and responses.
    pub fn message(&self) -> (text: String)
        ensures
            text@ == self.message_spec(),
    {
        match self {
            FederationError::MalformedActivity => String::from_str("malformed activity"),
            FederationError::ActorMismatch => String::from_str("actor mismatch"),
            FederationError::DomainRejected(reason) => reason.message(),
            FederationError::ObjectNotFound => String::from_str("object not found"),
            FederationError::Forbidden => String::from_str(
                "only local admin can remove community",
            ),
            FederationError::NotImplemented => String::from_str("not implemented"),
            FederationError::StorageFailure => String::from_str("storage failure"),
        }
    }
}

/// How a received activity ended when it did not fail.
#[derive(Clone, Copy, Debug, PartialEq, Eq, Structural)]
pub enum ReceiveOutcome {
    /// The activity was new and its effects are in the store.
    Applied,
    /// The activity's id was in the ledger already; nothing was done.
    Duplicate,
}

} // verus!
