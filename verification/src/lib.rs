//! Federation-activity processing core: a verified engine for an
//! ActivityPub-style protocol. Inbound activities pass a verify step
//! (envelope shape, domain match, membership and moderator checks, a
//! bounded remote-resolution budget) before their receive step applies
//! them to local state; outbound activities are minted a fresh id and
//! fanned out to a deduplicated set of follower inboxes.

pub mod community;
pub mod dispatch;
pub mod envelope;
pub mod error;
pub mod outbound;
pub mod post;
pub mod remote;
pub mod state;
pub mod uri;
