//! The inbound dispatcher: one deserialized activity enters, its verify
//! step runs, and only on success does its receive step apply effects.
//! The dispatcher owns the request counter for the whole message, so
//! remote lookups triggered anywhere in its processing share one budget.

use vstd::prelude::*;

use crate::community::{update_accepted, UpdateCommunity};
use crate::envelope::{ActivityCommonFields, Notification, UserOperation};
use crate::error::FedError;
use crate::post::{dislike_outcome, DislikePost};
use crate::remote::{persons_after_resolve, RemoteDirectory};
use crate::state::{apply_form, community_at, person_at, post_at, upsert_vote_spec, LocalState};
use crate::uri::{domain_error, domains_match};

verus! {

/// The closed set of activity kinds eligible for processing and for
/// re-broadcast by a community's Announce wrapper. New kinds are added as
/// variants, never by runtime type inspection.
pub enum AnnouncableActivities {
    UpdateCommunity(UpdateCommunity),
    DislikePost(DislikePost),
}

/// The envelope of an activity, whatever its concrete kind.
pub open spec fn common_of(a: AnnouncableActivities) -> ActivityCommonFields {
    match a {
        AnnouncableActivities::UpdateCommunity(u) => u.common,
        AnnouncableActivities::DislikePost(d) => d.common,
    }
}

impl AnnouncableActivities {
    /// Read-only access to the envelope without knowing the concrete kind.
    pub fn common(&self) -> (r: &ActivityCommonFields)
        ensures
            *r == common_of(*self),
    {
        match self {
            AnnouncableActivities::UpdateCommunity(u) => &u.common,
            AnnouncableActivities::DislikePost(d) => &d.common,
        }
    }
}

/// Process one inbound activity: run its verify step, and its receive
/// step only after verify succeeded. A rejected activity is an atomic
/// no-op on domain state and raises no notification; a domain mismatch in
/// particular is rejected before anything else runs. The dispatcher owns
/// the request counter, started at zero for this one message.
pub fn receive_activity(
    state: &mut LocalState,
    dir: &RemoteDirectory,
    activity: AnnouncableActivities,
    limit: u32,
    notifications: &mut Vec<Notification>,
) -> (r: Result<(), FedError>)
    requires
        old(state).wf(),
    ensures
        final(state).wf(),
        final(state).members == old(state).members,
        final(state).moderators == old(state).moderators,
        final(state).instance_host == old(state).instance_host,
        final(state).next_activity_seq == old(state).next_activity_seq,
        r is Err ==> final(state).communities == old(state).communities && final(state).votes
            == old(state).votes && *final(notifications) == *old(notifications),
        !domains_match(common_of(activity).actor@, common_of(activity).id@) ==> r == Err::<
            (),
            FedError,
        >(domain_error(common_of(activity).actor@, common_of(activity).id@)) && *final(state)
            == *old(state) && *final(notifications) == *old(notifications),
        activity matches AnnouncableActivities::UpdateCommunity(u) ==> (r is Ok
            <==> update_accepted(*old(state), u)) && final(state).votes == old(state).votes
            && final(state).posts == old(state).posts && persons_after_resolve(
            old(state).persons@,
            final(state).persons@,
            u.common.actor@,
            old(state).next_id,
        ),
        activity matches AnnouncableActivities::UpdateCommunity(u) ==> (r is Ok ==> exists|j: int|
            #![trigger old(state).communities@[j]]
            community_at(old(state).communities@, u.cc@[0]@, j) && final(state).communities@ == old(
                state,
            ).communities@.update(
                j,
                apply_form(old(state).communities@[j], crate::community::form_of(u.object)),
            ) && final(notifications)@ == old(notifications)@.push(
                Notification {
                    entity_id: old(state).communities@[j].id,
                    op: UserOperation::EditCommunity,
                },
            )),
        activity matches AnnouncableActivities::DislikePost(d) ==> (r is Ok <==> domains_match(
            d.common.actor@,
            d.common.id@,
        ) && dislike_outcome(*old(state), *dir, d.common.actor@, d.object@, 0, limit) is Ok)
            && final(state).communities == old(state).communities,
        activity matches AnnouncableActivities::DislikePost(d) ==> (r is Ok ==> exists|i: int, j: int|
            #![trigger final(state).persons@[i], final(state).posts@[j]]
            person_at(final(state).persons@, d.common.actor@, i) && post_at(
                final(state).posts@,
                d.object@,
                j,
            ) && final(state).votes@ == upsert_vote_spec(
                old(state).votes@,
                final(state).persons@[i].id,
                final(state).posts@[j].id,
                -1i8,
            ) && final(notifications)@ == old(notifications)@.push(
                Notification {
                    entity_id: final(state).posts@[j].id,
                    op: UserOperation::CreatePostVote,
                },
            )),
{
    let mut counter: u32 = 0;
    match activity {
        AnnouncableActivities::UpdateCommunity(u) => {
            match u.verify(state, dir, &mut counter, limit) {
                Err(e) => Err(e),
                Ok(_) => u.receive(state, notifications),
            }
        },
        AnnouncableActivities::DislikePost(d) => {
            match d.verify() {
                Err(e) => Err(e),
                Ok(_) => d.receive(state, dir, notifications, &mut counter, limit),
            }
        },
    }
}

/// Mod-action gating, one half: the vote path reads nothing of membership
/// or moderator rank — two states that agree on persons, posts and the id
/// allocator give every dislike the same outcome, whatever their member
/// and moderator tables hold.
pub proof fn lemma_vote_ignores_membership(
    s1: LocalState,
    s2: LocalState,
    dir: RemoteDirectory,
    actor: Seq<char>,
    object: Seq<char>,
    counter: u32,
    limit: u32,
)
    requires
        s1.persons == s2.persons,
        s1.posts == s2.posts,
        s1.next_id == s2.next_id,
    ensures
        dislike_outcome(s1, dir, actor, object, counter, limit) == dislike_outcome(
            s2,
            dir,
            actor,
            object,
            counter,
            limit,
        ),
{
}

/// Mod-action gating, the other half: an Update whose actor is a member
/// but no moderator of the target community is not accepted — the verify
/// contract then pins the rejection to `NotAuthorized(ModAction)` — while
/// acceptance of a Dislike never turns on membership at all
/// (`lemma_vote_ignores_membership`, and `DislikePost::verify` reads no
/// state).
pub proof fn lemma_mod_action_gating(s: LocalState, u: UpdateCommunity)
    requires
        s.is_member_spec(u.common.actor@, u.cc@[0]@),
        !s.is_moderator_spec(u.common.actor@, u.cc@[0]@),
    ensures
        !update_accepted(s, u),
{
}

} // verus!
