//! The envelope every activity carries, the public-audience marker, and
//! the notification events receive steps raise.

use vstd::prelude::*;

use crate::error::FedError;
use crate::uri::{domain_error, domains_match, verify_domains_match};

verus! {

/// The fields common to every activity: the globally unique `id` minted by
/// the originating instance, the `actor` claiming to send it, and any
/// extension fields that must round-trip losslessly when the envelope is
/// re-serialized.
pub struct ActivityCommonFields {
    pub id: String,
    pub actor: String,
    pub unparsed: Vec<(String, String)>,
}

/// The public-visibility marker an activity's `to` field may carry.
#[derive(Clone, Copy, PartialEq, Eq, Structural, Debug)]
pub enum Audience {
    Public,
}

/// The operation a local notification reports to real-time subscribers.
#[derive(Clone, Copy, PartialEq, Eq, Structural, Debug)]
pub enum UserOperation {
    EditCommunity,
    CreatePostVote,
}

/// A fire-and-forget event for the notification collaborator: which entity
/// changed and how. Raising one cannot fail the enclosing activity.
#[derive(Clone, Copy, PartialEq, Eq, Structural, Debug)]
pub struct Notification {
    pub entity_id: u64,
    pub op: UserOperation,
}

/// The envelope check every inbound activity passes first: `id` and
/// `actor` both carry a host, and the hosts agree, so the sender cannot
/// claim provenance under an authority not its own.
pub fn verify_activity(common: &ActivityCommonFields) -> (r: Result<(), FedError>)
    ensures
        r is Ok <==> domains_match(common.actor@, common.id@),
        !domains_match(common.actor@, common.id@) ==> r == Err::<(), FedError>(
            domain_error(common.actor@, common.id@),
        ),
{
    verify_domains_match(&common.actor, &common.id)
}

} // verus!
