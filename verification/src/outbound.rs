//! The outbound sender and delivery queue: mint a fresh activity id under
//! the instance's own authority, wrap the activity, resolve the recipient
//! inbox set (followers plus explicit extras, deduplicated), and decide
//! retries per destination.

use vstd::prelude::*;

use crate::community::{CommunityObjectForm, UpdateCommunity};
use crate::dispatch::AnnouncableActivities;
use crate::envelope::{ActivityCommonFields, Audience};
use crate::error::FedError;
use crate::state::{CommunityRecord, LocalState, PersonRecord};

verus! {

/// Relies on `alloc::string::String::push`: appends one character.
pub assume_specification[ String::push ](s: &mut String, ch: char)
    ensures
        final(s)@ == old(s)@.push(ch),
;

/// Relies on `alloc::string::String::push_str`: appends the string slice.
pub assume_specification[ String::push_str ](s: &mut String, other: &str)
    ensures
        final(s)@ == old(s)@ + other@,
;

/// The decimal digit character of a value below ten.
pub open spec fn dec_digit(d: int) -> char {
    if d == 0 {
        '0'
    } else if d == 1 {
        '1'
    } else if d == 2 {
        '2'
    } else if d == 3 {
        '3'
    } else if d == 4 {
        '4'
    } else if d == 5 {
        '5'
    } else if d == 6 {
        '6'
    } else if d == 7 {
        '7'
    } else if d == 8 {
        '8'
    } else {
        '9'
    }
}

/// The decimal representation of a number, most significant digit first,
/// without leading zeros (a single zero for zero).
pub open spec fn dec_rep(n: nat) -> Seq<char>
    decreases n,
{
    if n < 10 {
        seq![dec_digit(n as int)]
    } else {
        dec_rep(n / 10).push(dec_digit((n % 10) as int))
    }
}

fn dec_digit_exec(d: u64) -> (c: char)
    requires
        d < 10,
    ensures
        c == dec_digit(d as int),
{
    match d {
        0 => '0',
        1 => '1',
        2 => '2',
        3 => '3',
        4 => '4',
        5 => '5',
        6 => '6',
        7 => '7',
        8 => '8',
        _ => '9',
    }
}

/// Write a number in decimal.
pub fn u64_to_dec(n: u64) -> (r: String)
    ensures
        r@ == dec_rep(n as nat),
    decreases n,
{
    if n < 10 {
        let mut s = String::new();
        s.push(dec_digit_exec(n));
        proof {
            assert(s@ =~= dec_rep(n as nat));
        }
        s
    } else {
        let mut s = u64_to_dec(n / 10);
        s.push(dec_digit_exec(n % 10));
        s
    }
}

/// The fresh id minted for the `seq`-th outbound update of an instance:
/// dereferenceable under the instance's own authority, unique per value of
/// the token.
pub open spec fn minted_update_id(host: Seq<char>, seq: u64) -> Seq<char> {
    "https://"@ + host + "/activities/update/"@ + dec_rep(seq as nat)
}

/// Mint the activity id for uniqueness token `seq`.
pub fn generate_activity_id(host: &String, seq: u64) -> (r: String)
    ensures
        r@ == minted_update_id(host@, seq),
{
    let mut s = String::new();
    s.push_str("https://");
    s.push_str(host.as_str());
    s.push_str("/activities/update/");
    let d = u64_to_dec(seq);
    s.push_str(d.as_str());
    proof {
        assert(s@ =~= minted_update_id(host@, seq));
    }
    s
}

/// Whether some entry of `v` names the inbox `x`.
pub open spec fn covered(v: Seq<String>, x: Seq<char>) -> bool {
    exists|i: int| 0 <= i < v.len() && v[i]@ == x
}

spec fn covered_upto(v: Seq<String>, x: Seq<char>, n: int) -> bool {
    exists|i: int| 0 <= i < n && i < v.len() && v[i]@ == x
}

/// The set of inbox URIs a list of inboxes names.
pub open spec fn inbox_set(v: Seq<String>) -> Set<Seq<char>> {
    Set::new(|x: Seq<char>| covered(v, x))
}

/// No inbox URI appears twice.
pub open spec fn distinct_views(v: Seq<String>) -> bool {
    forall|i: int, j: int| 0 <= i < j < v.len() ==> v[i]@ != v[j]@
}

fn contains_uri(v: &Vec<String>, x: &String) -> (r: bool)
    ensures
        r == covered(v@, x@),
{
    let n = v.len();
    let mut i: usize = 0;
    while i < n
        invariant
            n == v@.len(),
            0 <= i <= n,
            forall|j: int| 0 <= j < i ==> v@[j]@ != x@,
        decreases n - i,
    {
        if v[i] == *x {
            return true;
        }
        i = i + 1;
    }
    false
}

/// Resolve the recipient inbox set of a community-scoped delivery: the
/// union of the community's follower inboxes and the explicit extra
/// recipients, deduplicated by inbox URI.
pub fn resolve_inboxes(community: &CommunityRecord, extra: &Vec<String>) -> (r: Vec<String>)
    ensures
        inbox_set(r@) == inbox_set(community.follower_inboxes@).union(inbox_set(extra@)),
        distinct_views(r@),
{
    let f = &community.follower_inboxes;
    let mut out: Vec<String> = Vec::new();
    let mut i: usize = 0;
    while i < f.len()
        invariant
            0 <= i <= f@.len(),
            distinct_views(out@),
            forall|k: int| 0 <= k < out@.len() ==> covered_upto(f@, out@[k]@, i as int),
            forall|m: int| 0 <= m < i ==> covered(out@, f@[m]@),
        decreases f@.len() - i,
    {
        if !contains_uri(&out, &f[i]) {
            let ghost out0 = out@;
            out.push(f[i].clone());
            proof {
                assert forall|m: int| 0 <= m < i implies covered(out@, f@[m]@) by {
                    let w = choose|w: int| 0 <= w < out0.len() && out0[w]@ == f@[m]@;
                    assert(out@[w]@ == f@[m]@);
                }
                assert(out@[out0.len() as int]@ == f@[i as int]@);
            }
        }
        i = i + 1;
    }
    let mut j: usize = 0;
    while j < extra.len()
        invariant
            0 <= j <= extra@.len(),
            distinct_views(out@),
            forall|k: int|
                0 <= k < out@.len() ==> covered(f@, out@[k]@) || covered_upto(
                    extra@,
                    out@[k]@,
                    j as int,
                ),
            forall|m: int| 0 <= m < f@.len() ==> covered(out@, f@[m]@),
            forall|m: int| 0 <= m < j ==> covered(out@, extra@[m]@),
        decreases extra@.len() - j,
    {
        if !contains_uri(&out, &extra[j]) {
            let ghost out0 = out@;
            out.push(extra[j].clone());
            proof {
                assert forall|m: int| 0 <= m < f@.len() implies covered(out@, f@[m]@) by {
                    let w = choose|w: int| 0 <= w < out0.len() && out0[w]@ == f@[m]@;
                    assert(out@[w]@ == f@[m]@);
                }
                assert forall|m: int| 0 <= m < j implies covered(out@, extra@[m]@) by {
                    let w = choose|w: int| 0 <= w < out0.len() && out0[w]@ == extra@[m]@;
                    assert(out@[w]@ == extra@[m]@);
                }
                assert(out@[out0.len() as int]@ == extra@[j as int]@);
            }
        }
        j = j + 1;
    }
    proof {
        assert forall|x: Seq<char>| #[trigger] inbox_set(out@).contains(x) implies inbox_set(
            f@,
        ).union(inbox_set(extra@)).contains(x) by {
            let k = choose|k: int| 0 <= k < out@.len() && out@[k]@ == x;
            assert(covered(f@, x) || covered(extra@, x));
        }
        assert forall|x: Seq<char>|
            inbox_set(f@).union(inbox_set(extra@)).contains(x) implies #[trigger] inbox_set(
            out@,
        ).contains(x) by {
            if covered(f@, x) {
                let m = choose|m: int| 0 <= m < f@.len() && f@[m]@ == x;
                assert(covered(out@, f@[m]@));
            } else {
                let m = choose|m: int| 0 <= m < extra@.len() && extra@[m]@ == x;
                assert(covered(out@, extra@[m]@));
            }
        }
        assert(inbox_set(out@) =~= inbox_set(community.follower_inboxes@).union(
            inbox_set(extra@),
        ));
    }
    out
}

/// A submitted outbound delivery: one wrapped activity and the resolved,
/// deduplicated inbox set it goes to. The transport delivers at least
/// once, in order per inbox, with no order across inboxes.
pub struct OutboundDelivery {
    pub activity: AnnouncableActivities,
    pub inboxes: Vec<String>,
}

/// Submit an activity for delivery to a community's audience: resolve the
/// follower inboxes plus the explicit extra recipients, deduplicated.
pub fn send_to_community(
    activity: AnnouncableActivities,
    community: &CommunityRecord,
    extra: &Vec<String>,
) -> (r: OutboundDelivery)
    ensures
        r.activity == activity,
        inbox_set(r.inboxes@) == inbox_set(community.follower_inboxes@).union(inbox_set(extra@)),
        distinct_views(r.inboxes@),
{
    let inboxes = resolve_inboxes(community, extra);
    OutboundDelivery { activity, inboxes }
}

fn clone_opt(o: &Option<String>) -> (r: Option<String>)
    ensures
        r == *o,
{
    match o {
        Some(s) => Some(s.clone()),
        None => None,
    }
}

impl UpdateCommunity {
    /// Build and submit an outbound Update for a local community edit:
    /// serialize the current row into the wire object shape, mint a fresh
    /// id under the instance's authority from the next uniqueness token,
    /// address the community's public audience with no extra recipients,
    /// and resolve the delivery's inbox set from the follower list.
    pub fn send(community: &CommunityRecord, actor: &PersonRecord, state: &mut LocalState) -> (r:
        OutboundDelivery)
        requires
            old(state).next_activity_seq < u64::MAX,
        ensures
            final(state).next_activity_seq == old(state).next_activity_seq + 1,
            final(state).instance_host == old(state).instance_host,
            final(state).next_id == old(state).next_id,
            final(state).communities == old(state).communities,
            final(state).persons == old(state).persons,
            final(state).posts == old(state).posts,
            final(state).votes == old(state).votes,
            final(state).members == old(state).members,
            final(state).moderators == old(state).moderators,
            old(state).wf() ==> final(state).wf(),
            inbox_set(r.inboxes@) == inbox_set(community.follower_inboxes@),
            distinct_views(r.inboxes@),
            r.activity matches AnnouncableActivities::UpdateCommunity(u) && ({
                let u = r.activity->UpdateCommunity_0;
                &&& u.common.id@ == minted_update_id(
                    old(state).instance_host@,
                    old(state).next_activity_seq,
                )
                &&& u.common.actor == actor.actor_id
                &&& u.common.unparsed@ == Seq::<(String, String)>::empty()
                &&& u.to == Audience::Public
                &&& u.cc@.len() == 1
                &&& u.cc@[0] == community.actor_id
                &&& u.object.name == community.name
                &&& u.object.title == community.title
                &&& u.object.description == community.description
                &&& u.object.nsfw == community.nsfw
                &&& u.object.icon == community.icon
                &&& u.object.banner == community.banner
            }),
    {
        let id = generate_activity_id(&state.instance_host, state.next_activity_seq);
        state.next_activity_seq = state.next_activity_seq + 1;
        let object = CommunityObjectForm {
            name: community.name.clone(),
            title: community.title.clone(),
            description: clone_opt(&community.description),
            nsfw: community.nsfw,
            icon: clone_opt(&community.icon),
            banner: clone_opt(&community.banner),
        };
        let mut cc: Vec<String> = Vec::new();
        cc.push(community.actor_id.clone());
        let update = UpdateCommunity {
            to: Audience::Public,
            object,
            cc,
            common: ActivityCommonFields {
                id,
                actor: actor.actor_id.clone(),
                unparsed: Vec::new(),
            },
        };
        let activity = AnnouncableActivities::UpdateCommunity(update);
        let extra: Vec<String> = Vec::new();
        let delivery = send_to_community(activity, community, &extra);
        proof {
            assert(inbox_set(extra@) =~= Set::<Seq<char>>::empty());
            assert(inbox_set(delivery.inboxes@) =~= inbox_set(community.follower_inboxes@));
        }
        delivery
    }
}

/// One delivery attempt's verdict for the queue worker.
#[derive(Clone, Copy, PartialEq, Eq, Structural, Debug)]
pub enum DeliveryStatus {
    /// The destination acknowledged the delivery.
    Delivered,
    /// The attempt failed and the bounded retry budget is not spent:
    /// retry, with backoff, without blocking other inboxes.
    Pending,
    /// The attempt failed and the budget is spent: abandon and report.
    /// The local state change that triggered the delivery stands.
    Abandoned,
}

/// The report for a finished delivery to one inbox: an abandoned delivery
/// is surfaced as a failure of that destination alone — it never fails
/// the activity, and never rolls back the local state change behind it.
pub fn delivery_report(status: DeliveryStatus) -> (r: Result<(), FedError>)
    ensures
        r is Err <==> status == DeliveryStatus::Abandoned,
        r is Err ==> r == Err::<(), FedError>(FedError::DeliveryFailure),
{
    match status {
        DeliveryStatus::Abandoned => Err(FedError::DeliveryFailure),
        _ => Ok(()),
    }
}

/// Decide what follows one delivery attempt to one inbox.
pub fn next_delivery_status(success: bool, attempts_made: u32, max_attempts: u32) -> (r:
    DeliveryStatus)
    ensures
        success ==> r == DeliveryStatus::Delivered,
        !success && attempts_made < max_attempts ==> r == DeliveryStatus::Pending,
        !success && attempts_made >= max_attempts ==> r == DeliveryStatus::Abandoned,
{
    if success {
        DeliveryStatus::Delivered
    } else if attempts_made < max_attempts {
        DeliveryStatus::Pending
    } else {
        DeliveryStatus::Abandoned
    }
}

} // verus!
