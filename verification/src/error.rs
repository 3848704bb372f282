//! Error kinds for activity verification, application and delivery.
//! Every failure is scoped to one activity or one delivery attempt.

use vstd::prelude::*;

verus! {

/// The kind of entity a lookup failed to find.
#[derive(Clone, Copy, PartialEq, Eq, Structural, Debug)]
pub enum Entity {
    Community,
    Person,
    Post,
}

/// The authorization rule that a rejected activity fell foul of.
#[derive(Clone, Copy, PartialEq, Eq, Structural, Debug)]
pub enum AuthzRule {
    ModAction,
}

/// Why an activity was rejected or an operation failed.
#[derive(Clone, Copy, PartialEq, Eq, Structural, Debug)]
pub enum FedError {
    /// An envelope field is malformed (an id or actor that is not an
    /// absolute URI with a host, or an addressing list of the wrong shape).
    MalformedEnvelope,
    /// The authority of the activity's `id` differs from the authority of
    /// its `actor`: the sender claims provenance it does not have.
    DomainMismatch,
    /// The actor is not a known member of the target community.
    NotAMember,
    /// The actor lacks the rank the activity kind demands.
    NotAuthorized(AuthzRule),
    /// Processing this activity would need more remote lookups than the
    /// configured budget allows.
    RecursionLimitExceeded,
    /// A referenced entity is known nowhere, locally or remotely.
    NotFound(Entity),
    /// The storage collaborator could not complete an operation.
    StorageFailure,
    /// An outbound delivery attempt failed.
    DeliveryFailure,
}

} // verus!
