//! The post vote activities: any valid remote actor may like or dislike a
//! post; no membership or moderator gate applies. One shared routine
//! enforces a single effective vote per `(actor, post)` by upsert.

use vstd::prelude::*;

use crate::envelope::{verify_activity, ActivityCommonFields, Audience, Notification, UserOperation};
use crate::error::{Entity, FedError};
use crate::remote::{
    dir_has_actor, dir_has_post, persons_after_resolve, posts_after_resolve, resolve_cost,
    resolve_outcome, resolve_person, resolve_post, RemoteDirectory,
};
use crate::state::{has_person, has_post, person_at, post_at, upsert_vote_spec, LocalState};
use crate::uri::{check_uri_valid, domain_error, domains_match};

verus! {

/// A dislike of a post, received from any remote actor whose envelope
/// verifies; the post is referenced by a bare URI.
pub struct DislikePost {
    pub to: Audience,
    pub object: String,
    pub cc: Vec<String>,
    pub common: ActivityCommonFields,
}

/// The result of applying a vote: both the actor and the post resolve
/// within the remaining budget, or the first failure among the two
/// resolutions, in order.
pub open spec fn dislike_outcome(
    s: LocalState,
    dir: RemoteDirectory,
    actor: Seq<char>,
    object: Seq<char>,
    counter: u32,
    limit: u32,
) -> Result<(), FedError> {
    let k1 = has_person(s.persons@, actor);
    let o1 = resolve_outcome(
        Entity::Person,
        k1,
        dir_has_actor(dir, actor),
        counter,
        limit,
        s.next_id,
    );
    if o1 is Err {
        o1
    } else {
        let c1 = (counter + resolve_cost(k1, counter, limit)) as u32;
        let n1 = if k1 {
            s.next_id
        } else {
            (s.next_id + 1) as u64
        };
        resolve_outcome(Entity::Post, has_post(s.posts@, object), dir_has_post(dir, object), c1, limit, n1)
    }
}

/// Apply a signed vote of `actor` on `object`: resolve both URIs within
/// the shared budget, then record the one effective vote of that pair and
/// raise one vote notification. This routine is the single place that
/// enforces vote upsert.
pub fn like_or_dislike_post(
    score: i8,
    actor: &String,
    object: &String,
    state: &mut LocalState,
    dir: &RemoteDirectory,
    notifications: &mut Vec<Notification>,
    counter: &mut u32,
    limit: u32,
) -> (r: Result<(), FedError>)
    requires
        old(state).wf(),
        score == 1i8 || score == -1i8,
    ensures
        final(state).wf(),
        final(state).communities == old(state).communities,
        final(state).members == old(state).members,
        final(state).moderators == old(state).moderators,
        final(state).instance_host == old(state).instance_host,
        final(state).next_activity_seq == old(state).next_activity_seq,
        r is Ok <==> dislike_outcome(*old(state), *dir, actor@, object@, *old(counter), limit)
            is Ok,
        r is Err ==> r == Err::<(), FedError>(
            dislike_outcome(*old(state), *dir, actor@, object@, *old(counter), limit)->Err_0,
        ),
        r is Err ==> final(state).votes == old(state).votes && *final(notifications) == *old(
            notifications,
        ),
        persons_after_resolve(old(state).persons@, final(state).persons@, actor@, old(state).next_id),
        posts_after_resolve(
            old(state).posts@,
            final(state).posts@,
            object@,
            if has_person(old(state).persons@, actor@) {
                old(state).next_id
            } else {
                (old(state).next_id + 1) as u64
            },
        ),
        r is Ok ==> exists|i: int, j: int|
            #![trigger final(state).persons@[i], final(state).posts@[j]]
            person_at(final(state).persons@, actor@, i) && post_at(final(state).posts@, object@, j)
                && final(state).votes@ == upsert_vote_spec(
                old(state).votes@,
                final(state).persons@[i].id,
                final(state).posts@[j].id,
                score,
            ) && final(notifications)@ == old(notifications)@.push(
                Notification {
                    entity_id: final(state).posts@[j].id,
                    op: UserOperation::CreatePostVote,
                },
            ),
{
    let pidx = match resolve_person(state, dir, actor, counter, limit) {
        Err(e) => {
            return Err(e);
        },
        Ok(i) => i,
    };
    let qidx = match resolve_post(state, dir, object, counter, limit) {
        Err(e) => {
            return Err(e);
        },
        Ok(i) => i,
    };
    let pid = state.persons[pidx].id;
    let qid = state.posts[qidx].id;
    state.upsert_vote(pid, qid, score);
    notifications.push(Notification { entity_id: qid, op: UserOperation::CreatePostVote });
    Ok(())
}

impl DislikePost {
    /// The only checks a vote passes: the envelope's domains agree and the
    /// actor's URI is usable as an identity. Deliberately no membership
    /// check: any valid remote actor may vote. Reads no state at all.
    pub fn verify(&self) -> (r: Result<(), FedError>)
        ensures
            r is Ok <==> domains_match(self.common.actor@, self.common.id@),
            !domains_match(self.common.actor@, self.common.id@) ==> r == Err::<(), FedError>(
                domain_error(self.common.actor@, self.common.id@),
            ),
    {
        match verify_activity(&self.common) {
            Err(e) => {
                return Err(e);
            },
            Ok(_) => {},
        }
        check_uri_valid(&self.common.actor)
    }

    /// Read-only access to the envelope, for the dispatcher and verifier.
    pub fn common(&self) -> (r: &ActivityCommonFields)
        ensures
            *r == self.common,
    {
        &self.common
    }

    /// Apply a verified dislike through the shared vote routine, with the
    /// signed delta `-1`.
    pub fn receive(
        &self,
        state: &mut LocalState,
        dir: &RemoteDirectory,
        notifications: &mut Vec<Notification>,
        counter: &mut u32,
        limit: u32,
    ) -> (r: Result<(), FedError>)
        requires
            old(state).wf(),
        ensures
            final(state).wf(),
            final(state).communities == old(state).communities,
            final(state).members == old(state).members,
            final(state).moderators == old(state).moderators,
            final(state).instance_host == old(state).instance_host,
            final(state).next_activity_seq == old(state).next_activity_seq,
            r is Ok <==> dislike_outcome(
                *old(state),
                *dir,
                self.common.actor@,
                self.object@,
                *old(counter),
                limit,
            ) is Ok,
            r is Err ==> r == Err::<(), FedError>(
                dislike_outcome(
                    *old(state),
                    *dir,
                    self.common.actor@,
                    self.object@,
                    *old(counter),
                    limit,
                )->Err_0,
            ),
            r is Err ==> final(state).votes == old(state).votes && *final(notifications) == *old(
                notifications,
            ),
            persons_after_resolve(
                old(state).persons@,
                final(state).persons@,
                self.common.actor@,
                old(state).next_id,
            ),
            r is Ok ==> exists|i: int, j: int|
                #![trigger final(state).persons@[i], final(state).posts@[j]]
                person_at(final(state).persons@, self.common.actor@, i) && post_at(
                    final(state).posts@,
                    self.object@,
                    j,
                ) && final(state).votes@ == upsert_vote_spec(
                    old(state).votes@,
                    final(state).persons@[i].id,
                    final(state).posts@[j].id,
                    -1i8,
                ) && final(notifications)@ == old(notifications)@.push(
                    Notification {
                        entity_id: final(state).posts@[j].id,
                        op: UserOperation::CreatePostVote,
                    },
                ),
    {
        like_or_dislike_post(-1, &self.common.actor, &self.object, state, dir, notifications, counter, limit)
    }
}

/// The recursion bound: a chain of resolutions that needs more units than
/// the budget has left fails with `RecursionLimitExceeded` — it never
/// fetches past the limit, and (since every loop in this crate terminates)
/// never loops indefinitely.
pub proof fn lemma_recursion_bound(
    s: LocalState,
    dir: RemoteDirectory,
    actor: Seq<char>,
    object: Seq<char>,
    counter: u32,
    limit: u32,
)
    requires
        ({
            let k1 = has_person(s.persons@, actor);
            let k2 = has_post(s.posts@, object);
            let needed = (if k1 { 0int } else { 1int }) + (if k2 { 0int } else { 1int });
            needed > 0 && counter + needed > limit && (!k1 ==> dir_has_actor(dir, actor)
                && s.next_id < u64::MAX)
        }),
    ensures
        dislike_outcome(s, dir, actor, object, counter, limit) == Err::<(), FedError>(
            FedError::RecursionLimitExceeded,
        ),
{
}

} // verus!
