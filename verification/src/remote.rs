//! Bounded resolution of remote actors and objects.
//!
//! Resolving an unknown federation URI means dereferencing it over the
//! network — outside work the surrounding plumbing performs. The plumbing
//! hands the engine a `RemoteDirectory`: what dereferencing each URI would
//! return right now, for the one activity being processed. Resolution
//! against it is verified: every lookup of a URI not already cached
//! locally consumes one unit of the shared request counter, and past the
//! configured limit resolution fails instead of fetching on.

use vstd::prelude::*;

use crate::error::{Entity, FedError};
use crate::state::{
    has_person, has_post, person_at, post_at, LocalState, PersonRecord, PostRecord,
};

verus! {

/// What dereferencing a remote actor's URI returns: its identity and inbox.
pub struct RemoteActor {
    pub actor_id: String,
    pub inbox: String,
}

/// What dereferencing a remote post's URI returns.
pub struct RemotePost {
    pub ap_id: String,
}

/// The remote lookups available while one activity is processed.
pub struct RemoteDirectory {
    pub actors: Vec<RemoteActor>,
    pub posts: Vec<RemotePost>,
}

pub open spec fn dir_has_actor(d: RemoteDirectory, uri: Seq<char>) -> bool {
    exists|i: int| 0 <= i < d.actors@.len() && d.actors@[i].actor_id@ == uri
}

pub open spec fn dir_has_post(d: RemoteDirectory, uri: Seq<char>) -> bool {
    exists|i: int| 0 <= i < d.posts@.len() && d.posts@[i].ap_id@ == uri
}

/// What one resolution of `entity` comes to: nothing to do when the URI is
/// already cached, a budget failure when the counter has reached the
/// limit, a not-found when the network does not know the URI either, and
/// otherwise a fetch-and-cache that can only fail for want of ids.
pub open spec fn resolve_outcome(
    entity: Entity,
    known: bool,
    in_dir: bool,
    counter: u32,
    limit: u32,
    next_id: u64,
) -> Result<(), FedError> {
    if known {
        Ok(())
    } else if counter >= limit {
        Err(FedError::RecursionLimitExceeded)
    } else if !in_dir {
        Err(FedError::NotFound(entity))
    } else if next_id == u64::MAX {
        Err(FedError::StorageFailure)
    } else {
        Ok(())
    }
}

/// The units of the request counter one resolution consumes: none for a
/// URI already cached or once the budget is spent, one for each lookup.
pub open spec fn resolve_cost(known: bool, counter: u32, limit: u32) -> u32 {
    if known || counter >= limit {
        0
    } else {
        1
    }
}

/// A person table after a resolution: unchanged, or with exactly the one
/// fetched row appended, carrying the resolved URI and the id `next`.
pub open spec fn persons_after_resolve(
    s0: Seq<PersonRecord>,
    s1: Seq<PersonRecord>,
    uri: Seq<char>,
    next: u64,
) -> bool {
    s1 == s0 || (s1.len() == s0.len() + 1 && (forall|i: int| 0 <= i < s0.len() ==> s1[i] == s0[i])
        && s1[s0.len() as int].actor_id@ == uri && s1[s0.len() as int].id == next)
}

/// A post table after a resolution, as `persons_after_resolve`.
pub open spec fn posts_after_resolve(
    s0: Seq<PostRecord>,
    s1: Seq<PostRecord>,
    uri: Seq<char>,
    next: u64,
) -> bool {
    s1 == s0 || (s1.len() == s0.len() + 1 && (forall|i: int| 0 <= i < s0.len() ==> s1[i] == s0[i])
        && s1[s0.len() as int].ap_id@ == uri && s1[s0.len() as int].id == next)
}

impl RemoteDirectory {
    pub fn find_actor(&self, uri: &String) -> (r: Option<usize>)
        ensures
            match r {
                Some(i) => 0 <= i < self.actors@.len() && self.actors@[i as int].actor_id@ == uri@,
                None => !dir_has_actor(*self, uri@),
            },
    {
        let n = self.actors.len();
        let mut i: usize = 0;
        while i < n
            invariant
                n == self.actors@.len(),
                0 <= i <= n,
                forall|j: int| 0 <= j < i ==> self.actors@[j].actor_id@ != uri@,
            decreases n - i,
        {
            if self.actors[i].actor_id == *uri {
                return Some(i);
            }
            i = i + 1;
        }
        None
    }

    pub fn find_post(&self, uri: &String) -> (r: Option<usize>)
        ensures
            match r {
                Some(i) => 0 <= i < self.posts@.len() && self.posts@[i as int].ap_id@ == uri@,
                None => !dir_has_post(*self, uri@),
            },
    {
        let n = self.posts.len();
        let mut i: usize = 0;
        while i < n
            invariant
                n == self.posts@.len(),
                0 <= i <= n,
                forall|j: int| 0 <= j < i ==> self.posts@[j].ap_id@ != uri@,
            decreases n - i,
        {
            if self.posts[i].ap_id == *uri {
                return Some(i);
            }
            i = i + 1;
        }
        None
    }
}

/// Resolve an actor's URI to a person row, fetching and caching it when it
/// is not yet known locally. Returns the row's index. Consumes
/// `resolve_cost` units of the shared counter and touches nothing in the
/// state beyond the person cache and the id allocator.
pub fn resolve_person(
    state: &mut LocalState,
    dir: &RemoteDirectory,
    uri: &String,
    counter: &mut u32,
    limit: u32,
) -> (r: Result<usize, FedError>)
    requires
        old(state).wf(),
    ensures
        final(state).wf(),
        final(state).communities == old(state).communities,
        final(state).posts == old(state).posts,
        final(state).votes == old(state).votes,
        final(state).members == old(state).members,
        final(state).moderators == old(state).moderators,
        final(state).instance_host == old(state).instance_host,
        final(state).next_activity_seq == old(state).next_activity_seq,
        *final(counter) == *old(counter) + resolve_cost(
            has_person(old(state).persons@, uri@),
            *old(counter),
            limit,
        ),
        r is Ok <==> resolve_outcome(
            Entity::Person,
            has_person(old(state).persons@, uri@),
            dir_has_actor(*dir, uri@),
            *old(counter),
            limit,
            old(state).next_id,
        ) is Ok,
        r is Err ==> r == Err::<usize, FedError>(resolve_outcome(
            Entity::Person,
            has_person(old(state).persons@, uri@),
            dir_has_actor(*dir, uri@),
            *old(counter),
            limit,
            old(state).next_id,
        )->Err_0) && *final(state) == *old(state),
        persons_after_resolve(old(state).persons@, final(state).persons@, uri@, old(state).next_id),
        has_person(old(state).persons@, uri@) ==> *final(state) == *old(state),
        r matches Ok(i) ==> person_at(final(state).persons@, uri@, i as int),
        r is Ok && !has_person(old(state).persons@, uri@) ==> final(state).next_id == old(
            state,
        ).next_id + 1,
{
    match state.find_person(uri) {
        Some(i) => Ok(i),
        None => {
            if *counter >= limit {
                return Err(FedError::RecursionLimitExceeded);
            }
            *counter = *counter + 1;
            match dir.find_actor(uri) {
                None => Err(FedError::NotFound(Entity::Person)),
                Some(k) => {
                    let idx = state.persons.len();
                    match state.cache_person(
                        dir.actors[k].actor_id.clone(),
                        dir.actors[k].inbox.clone(),
                    ) {
                        Ok(_) => Ok(idx),
                        Err(e) => Err(e),
                    }
                },
            }
        },
    }
}

/// Resolve a post's URI to a post row, fetching and caching it when it is
/// not yet known locally, as `resolve_person` resolves an actor.
pub fn resolve_post(
    state: &mut LocalState,
    dir: &RemoteDirectory,
    uri: &String,
    counter: &mut u32,
    limit: u32,
) -> (r: Result<usize, FedError>)
    requires
        old(state).wf(),
    ensures
        final(state).wf(),
        final(state).communities == old(state).communities,
        final(state).persons == old(state).persons,
        final(state).votes == old(state).votes,
        final(state).members == old(state).members,
        final(state).moderators == old(state).moderators,
        final(state).instance_host == old(state).instance_host,
        final(state).next_activity_seq == old(state).next_activity_seq,
        *final(counter) == *old(counter) + resolve_cost(
            has_post(old(state).posts@, uri@),
            *old(counter),
            limit,
        ),
        r is Ok <==> resolve_outcome(
            Entity::Post,
            has_post(old(state).posts@, uri@),
            dir_has_post(*dir, uri@),
            *old(counter),
            limit,
            old(state).next_id,
        ) is Ok,
        r is Err ==> r == Err::<usize, FedError>(resolve_outcome(
            Entity::Post,
            has_post(old(state).posts@, uri@),
            dir_has_post(*dir, uri@),
            *old(counter),
            limit,
            old(state).next_id,
        )->Err_0) && *final(state) == *old(state),
        posts_after_resolve(old(state).posts@, final(state).posts@, uri@, old(state).next_id),
        has_post(old(state).posts@, uri@) ==> *final(state) == *old(state),
        r matches Ok(i) ==> post_at(final(state).posts@, uri@, i as int),
        r is Ok && !has_post(old(state).posts@, uri@) ==> final(state).next_id == old(
            state,
        ).next_id + 1,
{
    match state.find_post(uri) {
        Some(i) => Ok(i),
        None => {
            if *counter >= limit {
                return Err(FedError::RecursionLimitExceeded);
            }
            *counter = *counter + 1;
            match dir.find_post(uri) {
                None => Err(FedError::NotFound(Entity::Post)),
                Some(k) => {
                    let idx = state.posts.len();
                    match state.cache_post(dir.posts[k].ap_id.clone()) {
                        Ok(_) => Ok(idx),
                        Err(e) => Err(e),
                    }
                },
            }
        },
    }
}

} // verus!
