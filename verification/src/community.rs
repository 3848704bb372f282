//! The community Update activity: a remote community moderator edits the
//! fields of a community known locally.

use vstd::prelude::*;

use crate::envelope::{
    verify_activity, ActivityCommonFields, Audience, Notification, UserOperation,
};
use crate::error::{AuthzRule, Entity, FedError};
use crate::remote::{
    dir_has_actor, persons_after_resolve, resolve_cost, resolve_outcome, resolve_person,
    RemoteDirectory,
};
use crate::state::{
    apply_form, community_at, has_community, has_person, person_at, CommunityUpdateForm,
    LocalState,
};
use crate::uri::{domain_error, domains_match};

verus! {

/// The wire shape of the community object an Update embeds: the fields a
/// moderator may change. Remote binary assets (icon, banner) stay
/// referenced by URL, deliberately unmirrored.
#[derive(Clone, Debug)]
pub struct CommunityObjectForm {
    pub name: String,
    pub title: String,
    pub description: Option<String>,
    pub nsfw: bool,
    pub icon: Option<String>,
    pub banner: Option<String>,
}

/// The storage patch a received object converts into.
pub open spec fn form_of(o: CommunityObjectForm) -> CommunityUpdateForm {
    CommunityUpdateForm {
        name: o.name,
        title: o.title,
        description: o.description,
        nsfw: o.nsfw,
        icon: o.icon,
        banner: o.banner,
    }
}

impl CommunityObjectForm {
    /// Convert the received object representation into the update form the
    /// storage collaborator applies.
    pub fn into_update_form(self) -> (f: CommunityUpdateForm)
        ensures
            f == form_of(self),
    {
        CommunityUpdateForm {
            name: self.name,
            title: self.title,
            description: self.description,
            nsfw: self.nsfw,
            icon: self.icon,
            banner: self.banner,
        }
    }
}

/// This activity is received from a remote community mod, and updates the
/// description or other fields of a local community.
pub struct UpdateCommunity {
    pub to: Audience,
    pub object: CommunityObjectForm,
    pub cc: Vec<String>,
    pub common: ActivityCommonFields,
}

/// When an Update passes verification: the envelope's domains agree, the
/// addressing names exactly the target community, the community is known
/// locally, and the actor is a member and a moderator of it.
pub open spec fn update_accepted(s: LocalState, a: UpdateCommunity) -> bool {
    &&& domains_match(a.common.actor@, a.common.id@)
    &&& a.cc@.len() == 1
    &&& has_community(s.communities@, a.cc@[0]@)
    &&& s.is_member_spec(a.common.actor@, a.cc@[0]@)
    &&& s.is_moderator_spec(a.common.actor@, a.cc@[0]@)
}

/// A member witness yields a known person: membership of an actor implies
/// its URI is already cached locally.
pub proof fn lemma_member_implies_known(s: LocalState, actor: Seq<char>, curi: Seq<char>)
    ensures
        s.is_member_spec(actor, curi) ==> has_person(s.persons@, actor),
        s.is_moderator_spec(actor, curi) ==> has_person(s.persons@, actor),
{
    if s.is_member_spec(actor, curi) {
        let (i, j) = choose|i: int, j: int|
            #![trigger s.persons@[i], s.communities@[j]]
            person_at(s.persons@, actor, i) && community_at(s.communities@, curi, j)
                && s.has_member_ids(s.persons@[i].id, s.communities@[j].id);
        assert(person_at(s.persons@, actor, i));
    }
    if s.is_moderator_spec(actor, curi) {
        let (i, j) = choose|i: int, j: int|
            #![trigger s.persons@[i], s.communities@[j]]
            person_at(s.persons@, actor, i) && community_at(s.communities@, curi, j)
                && s.has_moderator_ids(s.persons@[i].id, s.communities@[j].id);
        assert(person_at(s.persons@, actor, i));
    }
}

/// Two person rows carrying one URI are one row.
proof fn lemma_person_index_unique(s: LocalState, uri: Seq<char>, i: int, j: int)
    requires
        s.wf(),
        person_at(s.persons@, uri, i),
        person_at(s.persons@, uri, j),
    ensures
        i == j,
{
    if i < j {
        assert(s.persons@[i].actor_id@ != s.persons@[j].actor_id@);
    } else if j < i {
        assert(s.persons@[j].actor_id@ != s.persons@[i].actor_id@);
    }
}

/// Two community rows carrying one URI are one row.
proof fn lemma_community_index_unique(s: LocalState, uri: Seq<char>, i: int, j: int)
    requires
        s.wf(),
        community_at(s.communities@, uri, i),
        community_at(s.communities@, uri, j),
    ensures
        i == j,
{
    if i < j {
        assert(s.communities@[i].actor_id@ != s.communities@[j].actor_id@);
    } else if j < i {
        assert(s.communities@[j].actor_id@ != s.communities@[i].actor_id@);
    }
}

/// Membership and moderator rank of an actor, stated over URIs on the
/// state before a resolution, agree with the id-level relations looked up
/// on the state after it: resolution only appends a person row whose fresh
/// id no member or moderator record can reference.
proof fn lemma_member_equiv(
    s0: LocalState,
    s1: LocalState,
    actor: Seq<char>,
    curi: Seq<char>,
    pidx: int,
    cidx: int,
)
    requires
        s0.wf(),
        s1.wf(),
        s1.members == s0.members,
        s1.moderators == s0.moderators,
        s1.communities == s0.communities,
        persons_after_resolve(s0.persons@, s1.persons@, actor, s0.next_id),
        person_at(s1.persons@, actor, pidx),
        community_at(s1.communities@, curi, cidx),
    ensures
        s0.is_member_spec(actor, curi) <==> s1.has_member_ids(
            s1.persons@[pidx].id,
            s1.communities@[cidx].id,
        ),
        s0.is_moderator_spec(actor, curi) <==> s1.has_moderator_ids(
            s1.persons@[pidx].id,
            s1.communities@[cidx].id,
        ),
{
    let pid = s1.persons@[pidx].id;
    let cid = s1.communities@[cidx].id;
    if s0.is_member_spec(actor, curi) {
        let (i, j) = choose|i: int, j: int|
            #![trigger s0.persons@[i], s0.communities@[j]]
            person_at(s0.persons@, actor, i) && community_at(s0.communities@, curi, j)
                && s0.has_member_ids(s0.persons@[i].id, s0.communities@[j].id);
        assert(s1.persons@[i] == s0.persons@[i]);
        lemma_person_index_unique(s1, actor, i, pidx);
        lemma_community_index_unique(s1, curi, j, cidx);
        assert(s1.has_member_ids(pid, cid));
    }
    if s1.has_member_ids(pid, cid) {
        if pidx < s0.persons@.len() {
            assert(s0.persons@[pidx] == s1.persons@[pidx]);
            assert(person_at(s0.persons@, actor, pidx));
            assert(s0.is_member_spec(actor, curi));
        } else {
            // the row at pidx was freshly cached: its id is s0.next_id,
            // which no member record of s0 references
            assert(pid == s0.next_id);
            let k = choose|k: int|
                0 <= k < s1.members@.len() && s1.members@[k] == (crate::state::MemberRecord {
                    person_id: pid,
                    community_id: cid,
                });
            assert(s0.members@[k].person_id < s0.next_id);
            assert(false);
        }
    }
    if s0.is_moderator_spec(actor, curi) {
        let (i, j) = choose|i: int, j: int|
            #![trigger s0.persons@[i], s0.communities@[j]]
            person_at(s0.persons@, actor, i) && community_at(s0.communities@, curi, j)
                && s0.has_moderator_ids(s0.persons@[i].id, s0.communities@[j].id);
        assert(s1.persons@[i] == s0.persons@[i]);
        lemma_person_index_unique(s1, actor, i, pidx);
        lemma_community_index_unique(s1, curi, j, cidx);
        assert(s1.has_moderator_ids(pid, cid));
    }
    if s1.has_moderator_ids(pid, cid) {
        if pidx < s0.persons@.len() {
            assert(s0.persons@[pidx] == s1.persons@[pidx]);
            assert(person_at(s0.persons@, actor, pidx));
            assert(s0.is_moderator_spec(actor, curi));
        } else {
            assert(pid == s0.next_id);
            let k = choose|k: int|
                0 <= k < s1.moderators@.len() && s1.moderators@[k] == (crate::state::ModeratorRecord {
                    person_id: pid,
                    community_id: cid,
                });
            assert(s0.moderators@[k].person_id < s0.next_id);
            assert(false);
        }
    }
}

impl UpdateCommunity {
    /// The authorization check an Update passes before it may be applied:
    /// domain match, addressing shape, a locally known target community,
    /// and the actor resolved, a member, and a moderator of it. Accepts
    /// exactly on `update_accepted` states; mutates nothing but the person
    /// cache (and only through a bounded resolution).
    pub fn verify(
        &self,
        state: &mut LocalState,
        dir: &RemoteDirectory,
        counter: &mut u32,
        limit: u32,
    ) -> (r: Result<(), FedError>)
        requires
            old(state).wf(),
        ensures
            final(state).wf(),
            final(state).communities == old(state).communities,
            final(state).posts == old(state).posts,
            final(state).votes == old(state).votes,
            final(state).members == old(state).members,
            final(state).moderators == old(state).moderators,
            final(state).instance_host == old(state).instance_host,
            final(state).next_activity_seq == old(state).next_activity_seq,
            persons_after_resolve(
                old(state).persons@,
                final(state).persons@,
                self.common.actor@,
                old(state).next_id,
            ),
            r is Ok <==> update_accepted(*old(state), *self),
            !domains_match(self.common.actor@, self.common.id@) ==> r == Err::<(), FedError>(
                domain_error(self.common.actor@, self.common.id@),
            ) && *final(state) == *old(state) && *final(counter) == *old(counter),
            domains_match(self.common.actor@, self.common.id@) && self.cc@.len() != 1 ==> r
                == Err::<(), FedError>(FedError::MalformedEnvelope) && *final(state) == *old(state)
                && *final(counter) == *old(counter),
            domains_match(self.common.actor@, self.common.id@) && self.cc@.len() == 1
                && !has_community(old(state).communities@, self.cc@[0]@) ==> r == Err::<
                (),
                FedError,
            >(FedError::NotFound(Entity::Community)) && *final(state) == *old(state)
                && *final(counter) == *old(counter),
            domains_match(self.common.actor@, self.common.id@) && self.cc@.len() == 1
                && has_community(old(state).communities@, self.cc@[0]@) ==> *final(counter)
                == *old(counter) + resolve_cost(
                has_person(old(state).persons@, self.common.actor@),
                *old(counter),
                limit,
            ) && (resolve_outcome(
                Entity::Person,
                has_person(old(state).persons@, self.common.actor@),
                dir_has_actor(*dir, self.common.actor@),
                *old(counter),
                limit,
                old(state).next_id,
            ) matches Err(e) ==> r == Err::<(), FedError>(e) && *final(state) == *old(state)),
            domains_match(self.common.actor@, self.common.id@) && self.cc@.len() == 1
                && has_community(old(state).communities@, self.cc@[0]@) && resolve_outcome(
                Entity::Person,
                has_person(old(state).persons@, self.common.actor@),
                dir_has_actor(*dir, self.common.actor@),
                *old(counter),
                limit,
                old(state).next_id,
            ) is Ok ==> (!old(state).is_member_spec(self.common.actor@, self.cc@[0]@) ==> r
                == Err::<(), FedError>(FedError::NotAMember)) && (old(state).is_member_spec(
                self.common.actor@,
                self.cc@[0]@,
            ) && !old(state).is_moderator_spec(self.common.actor@, self.cc@[0]@) ==> r == Err::<
                (),
                FedError,
            >(FedError::NotAuthorized(AuthzRule::ModAction))),
    {
        match verify_activity(&self.common) {
            Err(e) => {
                return Err(e);
            },
            Ok(_) => {},
        }
        if self.cc.len() != 1 {
            return Err(FedError::MalformedEnvelope);
        }
        let cidx = match state.find_community(&self.cc[0]) {
            None => {
                return Err(FedError::NotFound(Entity::Community));
            },
            Some(j) => j,
        };
        proof {
            lemma_member_implies_known(*old(state), self.common.actor@, self.cc@[0]@);
        }
        let pidx = match resolve_person(state, dir, &self.common.actor, counter, limit) {
            Err(e) => {
                return Err(e);
            },
            Ok(i) => i,
        };
        let pid = state.persons[pidx].id;
        let cid = state.communities[cidx].id;
        proof {
            lemma_member_equiv(
                *old(state),
                *state,
                self.common.actor@,
                self.cc@[0]@,
                pidx as int,
                cidx as int,
            );
        }
        if !state.is_member_ids(pid, cid) {
            return Err(FedError::NotAMember);
        }
        if !state.is_moderator_ids(pid, cid) {
            return Err(FedError::NotAuthorized(AuthzRule::ModAction));
        }
        Ok(())
    }

    /// Read-only access to the envelope, for the dispatcher and verifier.
    pub fn common(&self) -> (r: &ActivityCommonFields)
        ensures
            *r == self.common,
    {
        &self.common
    }

    /// Apply a verified Update: merge the received object's fields into the
    /// community row addressed by `cc[0]` and raise one "community edited"
    /// notification. Safe to re-apply: the merge is idempotent
    /// (`lemma_update_receive_idempotent`).
    pub fn receive(self, state: &mut LocalState, notifications: &mut Vec<Notification>) -> (r:
        Result<(), FedError>)
        requires
            old(state).wf(),
        ensures
            final(state).wf(),
            final(state).persons == old(state).persons,
            final(state).posts == old(state).posts,
            final(state).votes == old(state).votes,
            final(state).members == old(state).members,
            final(state).moderators == old(state).moderators,
            final(state).instance_host == old(state).instance_host,
            final(state).next_id == old(state).next_id,
            final(state).next_activity_seq == old(state).next_activity_seq,
            r is Ok <==> self.cc@.len() == 1 && has_community(
                old(state).communities@,
                self.cc@[0]@,
            ),
            self.cc@.len() != 1 ==> r == Err::<(), FedError>(FedError::MalformedEnvelope),
            self.cc@.len() == 1 && !has_community(old(state).communities@, self.cc@[0]@) ==> r
                == Err::<(), FedError>(FedError::NotFound(Entity::Community)),
            r is Err ==> *final(state) == *old(state) && *final(notifications) == *old(
                notifications,
            ),
            r is Ok ==> exists|j: int|
                #![trigger old(state).communities@[j]]
                community_at(old(state).communities@, self.cc@[0]@, j) && final(state).communities@
                    == old(state).communities@.update(
                    j,
                    apply_form(old(state).communities@[j], form_of(self.object)),
                ) && final(notifications)@ == old(notifications)@.push(
                    Notification {
                        entity_id: old(state).communities@[j].id,
                        op: UserOperation::EditCommunity,
                    },
                ),
    {
        if self.cc.len() != 1 {
            return Err(FedError::MalformedEnvelope);
        }
        match state.find_community(&self.cc[0]) {
            None => Err(FedError::NotFound(Entity::Community)),
            Some(j) => {
                let id = state.communities[j].id;
                let ghost j_spec = j as int;
                state.update_community(j, self.object.into_update_form());
                notifications.push(
                    Notification { entity_id: id, op: UserOperation::EditCommunity },
                );
                proof {
                    assert(community_at(old(state).communities@, self.cc@[0]@, j_spec));
                }
                Ok(())
            },
        }
    }
}

/// Applying one Update's payload twice leaves the community table exactly
/// as applying it once does: the merge overwrites the same fields with the
/// same values, so a redelivered Update is a safe no-op.
pub proof fn lemma_update_receive_idempotent(
    s: Seq<crate::state::CommunityRecord>,
    j: int,
    f: CommunityUpdateForm,
)
    requires
        0 <= j < s.len(),
    ensures
        ({
            let once = s.update(j, apply_form(s[j], f));
            once.update(j, apply_form(once[j], f)) == once
        }),
{
    let once = s.update(j, apply_form(s[j], f));
    assert(once.update(j, apply_form(once[j], f)) =~= once);
}

} // verus!
