//! The local state the engine reads and mutates: snapshots of the rows the
//! storage collaborator owns, held as an explicit value that one logical
//! task at a time works on.
//!
//! Communities, persons and posts are keyed twice: by a local numeric id
//! (unique, allocated from `next_id`) and by their federation URI (unique).
//! Votes hold at most one record per `(person, post)` pair; membership and
//! moderator rank are relations over local ids.

use vstd::prelude::*;

use crate::error::FedError;

verus! {

/// A community row: identity, the fields a community Update may change,
/// and the follower inboxes outbound fan-out resolves against.
pub struct CommunityRecord {
    pub id: u64,
    pub actor_id: String,
    pub name: String,
    pub title: String,
    pub description: Option<String>,
    pub nsfw: bool,
    pub icon: Option<String>,
    pub banner: Option<String>,
    pub follower_inboxes: Vec<String>,
}

/// A person row: identity and the inbox deliveries to this actor go to.
pub struct PersonRecord {
    pub id: u64,
    pub actor_id: String,
    pub inbox: String,
}

/// A post row: local id and federation URI.
pub struct PostRecord {
    pub id: u64,
    pub ap_id: String,
}

/// One effective vote of one person on one post.
#[derive(Clone, Copy, PartialEq, Eq, Structural, Debug)]
pub struct VoteRecord {
    pub person_id: u64,
    pub post_id: u64,
    pub score: i8,
}

/// Membership (subscription) of a person in a community.
#[derive(Clone, Copy, PartialEq, Eq, Structural, Debug)]
pub struct MemberRecord {
    pub person_id: u64,
    pub community_id: u64,
}

/// Moderator rank of a person in a community.
#[derive(Clone, Copy, PartialEq, Eq, Structural, Debug)]
pub struct ModeratorRecord {
    pub person_id: u64,
    pub community_id: u64,
}

/// The patch an Update carries: every field it may change, applied as a
/// merge against the stored row (identity and followers are kept).
pub struct CommunityUpdateForm {
    pub name: String,
    pub title: String,
    pub description: Option<String>,
    pub nsfw: bool,
    pub icon: Option<String>,
    pub banner: Option<String>,
}

pub open spec fn community_at(s: Seq<CommunityRecord>, uri: Seq<char>, i: int) -> bool {
    0 <= i < s.len() && s[i].actor_id@ == uri
}

pub open spec fn has_community(s: Seq<CommunityRecord>, uri: Seq<char>) -> bool {
    exists|i: int| community_at(s, uri, i)
}

pub open spec fn person_at(s: Seq<PersonRecord>, uri: Seq<char>, i: int) -> bool {
    0 <= i < s.len() && s[i].actor_id@ == uri
}

pub open spec fn has_person(s: Seq<PersonRecord>, uri: Seq<char>) -> bool {
    exists|i: int| person_at(s, uri, i)
}

pub open spec fn post_at(s: Seq<PostRecord>, uri: Seq<char>, i: int) -> bool {
    0 <= i < s.len() && s[i].ap_id@ == uri
}

pub open spec fn has_post(s: Seq<PostRecord>, uri: Seq<char>) -> bool {
    exists|i: int| post_at(s, uri, i)
}

pub open spec fn vote_at(s: Seq<VoteRecord>, person_id: u64, post_id: u64, i: int) -> bool {
    0 <= i < s.len() && s[i].person_id == person_id && s[i].post_id == post_id
}

pub open spec fn has_vote(s: Seq<VoteRecord>, person_id: u64, post_id: u64) -> bool {
    exists|i: int| vote_at(s, person_id, post_id, i)
}

/// At most one vote record per `(person, post)` pair.
pub open spec fn votes_wf(s: Seq<VoteRecord>) -> bool {
    forall|i: int, j: int|
        0 <= i < j < s.len() ==> !(s[i].person_id == s[j].person_id && s[i].post_id
            == s[j].post_id)
}

/// The stored row after an Update's patch is merged into it: the patched
/// fields come from the form, identity and followers stay.
pub open spec fn apply_form(c: CommunityRecord, f: CommunityUpdateForm) -> CommunityRecord {
    CommunityRecord {
        id: c.id,
        actor_id: c.actor_id,
        name: f.name,
        title: f.title,
        description: f.description,
        nsfw: f.nsfw,
        icon: f.icon,
        banner: f.banner,
        follower_inboxes: c.follower_inboxes,
    }
}

/// The index of the vote record of `(person_id, post_id)`, where one exists.
pub open spec fn vote_index(s: Seq<VoteRecord>, person_id: u64, post_id: u64) -> int {
    choose|i: int| vote_at(s, person_id, post_id, i)
}

/// The vote sequence after an upsert: the pair's single record is replaced
/// where one exists, a fresh record is appended where none does.
pub open spec fn upsert_vote_spec(
    s: Seq<VoteRecord>,
    person_id: u64,
    post_id: u64,
    score: i8,
) -> Seq<VoteRecord> {
    let rec = VoteRecord { person_id, post_id, score };
    if has_vote(s, person_id, post_id) {
        s.update(vote_index(s, person_id, post_id), rec)
    } else {
        s.push(rec)
    }
}

/// Everything the engine holds for one instance.
pub struct LocalState {
    /// The authority this instance mints ids under.
    pub instance_host: String,
    /// The next free local numeric id.
    pub next_id: u64,
    /// The uniqueness token the next minted activity id uses.
    pub next_activity_seq: u64,
    pub communities: Vec<CommunityRecord>,
    pub persons: Vec<PersonRecord>,
    pub posts: Vec<PostRecord>,
    pub votes: Vec<VoteRecord>,
    pub members: Vec<MemberRecord>,
    pub moderators: Vec<ModeratorRecord>,
}

impl LocalState {
    /// A fresh, empty state for an instance under the given authority.
    pub fn new(instance_host: String) -> (s: LocalState)
        ensures
            s.wf(),
            s.instance_host == instance_host,
            s.next_id == 0,
            s.next_activity_seq == 0,
            s.communities@.len() == 0,
            s.persons@.len() == 0,
            s.posts@.len() == 0,
            s.votes@.len() == 0,
            s.members@.len() == 0,
            s.moderators@.len() == 0,
    {
        LocalState {
            instance_host,
            next_id: 0,
            next_activity_seq: 0,
            communities: Vec::new(),
            persons: Vec::new(),
            posts: Vec::new(),
            votes: Vec::new(),
            members: Vec::new(),
            moderators: Vec::new(),
        }
    }

    /// Well-formedness: local ids and federation URIs are unique per table,
    /// every allocated id lies below `next_id`, and votes hold at most one
    /// record per `(person, post)`.
    pub open spec fn wf(self) -> bool {
        &&& forall|i: int, j: int|
            0 <= i < j < self.communities@.len() ==> self.communities@[i].id
                != self.communities@[j].id && self.communities@[i].actor_id@
                != self.communities@[j].actor_id@
        &&& forall|i: int, j: int|
            0 <= i < j < self.persons@.len() ==> self.persons@[i].id != self.persons@[j].id
                && self.persons@[i].actor_id@ != self.persons@[j].actor_id@
        &&& forall|i: int, j: int|
            0 <= i < j < self.posts@.len() ==> self.posts@[i].id != self.posts@[j].id
                && self.posts@[i].ap_id@ != self.posts@[j].ap_id@
        &&& votes_wf(self.votes@)
        &&& forall|i: int| 0 <= i < self.communities@.len() ==> self.communities@[i].id < self.next_id
        &&& forall|i: int| 0 <= i < self.persons@.len() ==> self.persons@[i].id < self.next_id
        &&& forall|i: int| 0 <= i < self.posts@.len() ==> self.posts@[i].id < self.next_id
        &&& forall|k: int|
            0 <= k < self.members@.len() ==> self.members@[k].person_id < self.next_id
                && self.members@[k].community_id < self.next_id
        &&& forall|k: int|
            0 <= k < self.moderators@.len() ==> self.moderators@[k].person_id < self.next_id
                && self.moderators@[k].community_id < self.next_id
    }

    /// Membership stated over federation URIs: some person row carries the
    /// actor's URI, some community row carries the community's URI, and a
    /// member record joins their local ids.
    pub open spec fn is_member_spec(self, person_uri: Seq<char>, community_uri: Seq<char>) -> bool {
        exists|i: int, j: int|
            #![trigger self.persons@[i], self.communities@[j]]
            person_at(self.persons@, person_uri, i) && community_at(
                self.communities@,
                community_uri,
                j,
            ) && self.has_member_ids(self.persons@[i].id, self.communities@[j].id)
    }

    /// Moderator rank stated over federation URIs.
    pub open spec fn is_moderator_spec(
        self,
        person_uri: Seq<char>,
        community_uri: Seq<char>,
    ) -> bool {
        exists|i: int, j: int|
            #![trigger self.persons@[i], self.communities@[j]]
            person_at(self.persons@, person_uri, i) && community_at(
                self.communities@,
                community_uri,
                j,
            ) && self.has_moderator_ids(self.persons@[i].id, self.communities@[j].id)
    }

    pub open spec fn has_member_ids(self, person_id: u64, community_id: u64) -> bool {
        exists|k: int|
            0 <= k < self.members@.len() && self.members@[k] == (MemberRecord {
                person_id,
                community_id,
            })
    }

    pub open spec fn has_moderator_ids(self, person_id: u64, community_id: u64) -> bool {
        exists|k: int|
            0 <= k < self.moderators@.len() && self.moderators@[k] == (ModeratorRecord {
                person_id,
                community_id,
            })
    }

    /// Read a community row's index by its federation URI.
    pub fn find_community(&self, uri: &String) -> (r: Option<usize>)
        ensures
            match r {
                Some(i) => community_at(self.communities@, uri@, i as int),
                None => !has_community(self.communities@, uri@),
            },
    {
        let n = self.communities.len();
        let mut i: usize = 0;
        while i < n
            invariant
                n == self.communities@.len(),
                0 <= i <= n,
                forall|j: int| 0 <= j < i ==> self.communities@[j].actor_id@ != uri@,
            decreases n - i,
        {
            if self.communities[i].actor_id == *uri {
                return Some(i);
            }
            i = i + 1;
        }
        None
    }

    /// Read a person row's index by its federation URI.
    pub fn find_person(&self, uri: &String) -> (r: Option<usize>)
        ensures
            match r {
                Some(i) => person_at(self.persons@, uri@, i as int),
                None => !has_person(self.persons@, uri@),
            },
    {
        let n = self.persons.len();
        let mut i: usize = 0;
        while i < n
            invariant
                n == self.persons@.len(),
                0 <= i <= n,
                forall|j: int| 0 <= j < i ==> self.persons@[j].actor_id@ != uri@,
            decreases n - i,
        {
            if self.persons[i].actor_id == *uri {
                return Some(i);
            }
            i = i + 1;
        }
        None
    }

    /// Read a post row's index by its federation URI.
    pub fn find_post(&self, uri: &String) -> (r: Option<usize>)
        ensures
            match r {
                Some(i) => post_at(self.posts@, uri@, i as int),
                None => !has_post(self.posts@, uri@),
            },
    {
        let n = self.posts.len();
        let mut i: usize = 0;
        while i < n
            invariant
                n == self.posts@.len(),
                0 <= i <= n,
                forall|j: int| 0 <= j < i ==> self.posts@[j].ap_id@ != uri@,
            decreases n - i,
        {
            if self.posts[i].ap_id == *uri {
                return Some(i);
            }
            i = i + 1;
        }
        None
    }

    /// Whether a member record joins these two local ids.
    pub fn is_member_ids(&self, person_id: u64, community_id: u64) -> (r: bool)
        ensures
            r == self.has_member_ids(person_id, community_id),
    {
        let n = self.members.len();
        let mut i: usize = 0;
        while i < n
            invariant
                n == self.members@.len(),
                0 <= i <= n,
                forall|j: int|
                    0 <= j < i ==> self.members@[j] != (MemberRecord { person_id, community_id }),
            decreases n - i,
        {
            if self.members[i].person_id == person_id && self.members[i].community_id
                == community_id {
                return true;
            }
            i = i + 1;
        }
        false
    }

    /// Whether a moderator record joins these two local ids.
    pub fn is_moderator_ids(&self, person_id: u64, community_id: u64) -> (r: bool)
        ensures
            r == self.has_moderator_ids(person_id, community_id),
    {
        let n = self.moderators.len();
        let mut i: usize = 0;
        while i < n
            invariant
                n == self.moderators@.len(),
                0 <= i <= n,
                forall|j: int|
                    0 <= j < i ==> self.moderators@[j] != (ModeratorRecord {
                        person_id,
                        community_id,
                    }),
            decreases n - i,
        {
            if self.moderators[i].person_id == person_id && self.moderators[i].community_id
                == community_id {
                return true;
            }
            i = i + 1;
        }
        false
    }

    /// Find the index of the vote record of `(person_id, post_id)`.
    pub fn find_vote(&self, person_id: u64, post_id: u64) -> (r: Option<usize>)
        ensures
            match r {
                Some(i) => vote_at(self.votes@, person_id, post_id, i as int),
                None => !has_vote(self.votes@, person_id, post_id),
            },
    {
        let n = self.votes.len();
        let mut i: usize = 0;
        while i < n
            invariant
                n == self.votes@.len(),
                0 <= i <= n,
                forall|j: int|
                    0 <= j < i ==> !(self.votes@[j].person_id == person_id && self.votes@[j].post_id
                        == post_id),
            decreases n - i,
        {
            if self.votes[i].person_id == person_id && self.votes[i].post_id == post_id {
                return Some(i);
            }
            i = i + 1;
        }
        None
    }

    /// Merge an Update's patch into the community row at `idx`. Every other
    /// row and table is left as it was; well-formedness is preserved.
    pub fn update_community(&mut self, idx: usize, form: CommunityUpdateForm)
        requires
            idx < old(self).communities@.len(),
        ensures
            final(self).communities@ == old(self).communities@.update(
                idx as int,
                apply_form(old(self).communities@[idx as int], form),
            ),
            final(self).instance_host == old(self).instance_host,
            final(self).next_id == old(self).next_id,
            final(self).next_activity_seq == old(self).next_activity_seq,
            final(self).persons == old(self).persons,
            final(self).posts == old(self).posts,
            final(self).votes == old(self).votes,
            final(self).members == old(self).members,
            final(self).moderators == old(self).moderators,
            old(self).wf() ==> final(self).wf(),
    {
        let c = self.communities.remove(idx);
        let merged = CommunityRecord {
            id: c.id,
            actor_id: c.actor_id,
            name: form.name,
            title: form.title,
            description: form.description,
            nsfw: form.nsfw,
            icon: form.icon,
            banner: form.banner,
            follower_inboxes: c.follower_inboxes,
        };
        self.communities.insert(idx, merged);
        proof {
            assert(final(self).communities@ =~= old(self).communities@.update(
                idx as int,
                apply_form(old(self).communities@[idx as int], form),
            ));
        }
    }

    /// Record the one effective vote of `person_id` on `post_id`: replace
    /// the pair's record where one exists, append one where none does.
    pub fn upsert_vote(&mut self, person_id: u64, post_id: u64, score: i8)
        requires
            old(self).wf(),
        ensures
            final(self).votes@ == upsert_vote_spec(old(self).votes@, person_id, post_id, score),
            final(self).instance_host == old(self).instance_host,
            final(self).next_id == old(self).next_id,
            final(self).next_activity_seq == old(self).next_activity_seq,
            final(self).communities == old(self).communities,
            final(self).persons == old(self).persons,
            final(self).posts == old(self).posts,
            final(self).members == old(self).members,
            final(self).moderators == old(self).moderators,
            final(self).wf(),
    {
        let rec = VoteRecord { person_id, post_id, score };
        match self.find_vote(person_id, post_id) {
            Some(i) => {
                self.votes.remove(i);
                self.votes.insert(i, rec);
                proof {
                    let s = old(self).votes@;
                    let k = vote_index(s, person_id, post_id);
                    assert(vote_at(s, person_id, post_id, k));
                    if i as int != k {
                        assert(false);  // two records of one pair would break votes_wf
                    }
                    assert(final(self).votes@ =~= s.update(k, rec));
                }
            },
            None => {
                self.votes.push(rec);
            },
        }
        proof {
            lemma_upsert_vote_wf(old(self).votes@, person_id, post_id, score);
        }
    }

    /// Cache a remote actor fetched during resolution: allocate a local id
    /// and append the person row. Fails only when the id space is spent.
    pub fn cache_person(&mut self, actor_id: String, inbox: String) -> (r: Result<(), FedError>)
        requires
            old(self).wf(),
            !has_person(old(self).persons@, actor_id@),
        ensures
            r is Ok <==> old(self).next_id < u64::MAX,
            r is Err ==> r == Err::<(), FedError>(FedError::StorageFailure) && *final(self) == *old(
                self,
            ),
            r is Ok ==> final(self).persons@ == old(self).persons@.push(
                PersonRecord { id: old(self).next_id, actor_id, inbox },
            ) && final(self).next_id == old(self).next_id + 1 && final(self).instance_host == old(
                self,
            ).instance_host && final(self).next_activity_seq == old(self).next_activity_seq
                && final(self).communities == old(self).communities && final(self).posts == old(
                self,
            ).posts && final(self).votes == old(self).votes && final(self).members == old(
                self,
            ).members && final(self).moderators == old(self).moderators,
            final(self).wf(),
    {
        if self.next_id == u64::MAX {
            return Err(FedError::StorageFailure);
        }
        let id = self.next_id;
        self.next_id = self.next_id + 1;
        self.persons.push(PersonRecord { id, actor_id, inbox });
        proof {
            let s0 = old(self).persons@;
            let s1 = self.persons@;
            assert forall|i: int, j: int| 0 <= i < j < s1.len() implies s1[i].id != s1[j].id
                && s1[i].actor_id@ != s1[j].actor_id@ by {
                if j == s0.len() {
                    assert(s1[i] == s0[i]);
                    assert(s0[i].id < old(self).next_id);
                    assert(!person_at(s0, s1[j].actor_id@, i));
                }
            }
        }
        Ok(())
    }

    /// Cache a remote post fetched during resolution, as `cache_person`
    /// caches an actor.
    pub fn cache_post(&mut self, ap_id: String) -> (r: Result<(), FedError>)
        requires
            old(self).wf(),
            !has_post(old(self).posts@, ap_id@),
        ensures
            r is Ok <==> old(self).next_id < u64::MAX,
            r is Err ==> r == Err::<(), FedError>(FedError::StorageFailure) && *final(self) == *old(
                self,
            ),
            r is Ok ==> final(self).posts@ == old(self).posts@.push(
                PostRecord { id: old(self).next_id, ap_id },
            ) && final(self).next_id == old(self).next_id + 1 && final(self).instance_host == old(
                self,
            ).instance_host && final(self).next_activity_seq == old(self).next_activity_seq
                && final(self).communities == old(self).communities && final(self).persons == old(
                self,
            ).persons && final(self).votes == old(self).votes && final(self).members == old(
                self,
            ).members && final(self).moderators == old(self).moderators,
            final(self).wf(),
    {
        if self.next_id == u64::MAX {
            return Err(FedError::StorageFailure);
        }
        let id = self.next_id;
        self.next_id = self.next_id + 1;
        self.posts.push(PostRecord { id, ap_id });
        proof {
            let s0 = old(self).posts@;
            let s1 = self.posts@;
            assert forall|i: int, j: int| 0 <= i < j < s1.len() implies s1[i].id != s1[j].id
                && s1[i].ap_id@ != s1[j].ap_id@ by {
                if j == s0.len() {
                    assert(s1[i] == s0[i]);
                    assert(s0[i].id < old(self).next_id);
                    assert(!post_at(s0, s1[j].ap_id@, i));
                }
            }
        }
        Ok(())
    }
}

/// An upsert keeps the vote table free of duplicate `(person, post)` pairs.
pub proof fn lemma_upsert_vote_wf(s: Seq<VoteRecord>, person_id: u64, post_id: u64, score: i8)
    requires
        votes_wf(s),
    ensures
        votes_wf(upsert_vote_spec(s, person_id, post_id, score)),
{
    let rec = VoteRecord { person_id, post_id, score };
    let out = upsert_vote_spec(s, person_id, post_id, score);
    if has_vote(s, person_id, post_id) {
        let k = vote_index(s, person_id, post_id);
        assert(vote_at(s, person_id, post_id, k));
        assert forall|i: int, j: int|
            0 <= i < j < out.len() implies !(out[i].person_id == out[j].person_id && out[i].post_id
            == out[j].post_id) by {
            assert(out.len() == s.len());
            if i != k && j != k {
                assert(out[i] == s[i] && out[j] == s[j]);
            } else if i == k {
                assert(out[j] == s[j]);
                assert(!(s[k].person_id == s[j].person_id && s[k].post_id == s[j].post_id));
            } else {
                assert(out[i] == s[i]);
                assert(!(s[i].person_id == s[k].person_id && s[i].post_id == s[k].post_id));
            }
        }
    } else {
        assert forall|i: int, j: int|
            0 <= i < j < out.len() implies !(out[i].person_id == out[j].person_id && out[i].post_id
            == out[j].post_id) by {
            if j < s.len() {
                assert(out[i] == s[i] && out[j] == s[j]);
            } else {
                assert(out[j] == rec);
                assert(out[i] == s[i]);
                assert(!vote_at(s, person_id, post_id, i));
            }
        }
    }
}

/// Vote upsert: recording a person's vote on a post twice (any scores)
/// leaves the table exactly as recording the last one once does, and the
/// table then holds exactly one record of the pair, carrying that score.
pub proof fn lemma_vote_upsert_once(s: Seq<VoteRecord>, person_id: u64, post_id: u64, score: i8)
    requires
        votes_wf(s),
    ensures
        ({
            let once = upsert_vote_spec(s, person_id, post_id, score);
            &&& upsert_vote_spec(once, person_id, post_id, score) == once
            &&& has_vote(once, person_id, post_id)
            &&& forall|i: int, j: int|
                vote_at(once, person_id, post_id, i) && vote_at(once, person_id, post_id, j) ==> i
                    == j
            &&& forall|i: int| vote_at(once, person_id, post_id, i) ==> once[i].score == score
        }),
{
    let rec = VoteRecord { person_id, post_id, score };
    let once = upsert_vote_spec(s, person_id, post_id, score);
    lemma_upsert_vote_wf(s, person_id, post_id, score);
    if has_vote(s, person_id, post_id) {
        let k = vote_index(s, person_id, post_id);
        assert(vote_at(s, person_id, post_id, k));
        assert(once == s.update(k, rec));
        assert(vote_at(once, person_id, post_id, k));
    } else {
        assert(once == s.push(rec));
        assert(vote_at(once, person_id, post_id, s.len() as int));
    }
    assert forall|i: int, j: int|
        vote_at(once, person_id, post_id, i) && vote_at(once, person_id, post_id, j) implies i
        == j by {
        if i < j {
            assert(!(once[i].person_id == once[j].person_id && once[i].post_id == once[j].post_id));
        } else if j < i {
            assert(!(once[j].person_id == once[i].person_id && once[j].post_id == once[i].post_id));
        }
    }
    let k2 = vote_index(once, person_id, post_id);
    assert(vote_at(once, person_id, post_id, k2));
    assert(once[k2] == rec);
    assert(upsert_vote_spec(once, person_id, post_id, score) =~= once);
}

} // verus!
