use fedcore::community::{CommunityObjectForm, UpdateCommunity};
use fedcore::dispatch::{receive_activity, AnnouncableActivities};
use fedcore::envelope::{ActivityCommonFields, Audience, Notification, UserOperation};
use fedcore::error::{AuthzRule, Entity, FedError};
use fedcore::post::DislikePost;
use fedcore::remote::{RemoteActor, RemoteDirectory, RemotePost};
use fedcore::state::{
    CommunityRecord, LocalState, MemberRecord, ModeratorRecord, PersonRecord, PostRecord,
};

fn s(x: &str) -> String {
    x.to_string()
}

fn base_state() -> LocalState {
    LocalState {
        instance_host: s("a.example"),
        next_id: 10,
        next_activity_seq: 0,
        communities: vec![CommunityRecord {
            id: 1,
            actor_id: s("https://b.example/c/linux"),
            name: s("linux"),
            title: s("Old Title"),
            description: None,
            nsfw: false,
            icon: None,
            banner: None,
            follower_inboxes: vec![
                s("https://c.example/inbox"),
                s("https://d.example/u/alice/inbox"),
            ],
        }],
        persons: vec![
            PersonRecord {
                id: 2,
                actor_id: s("https://b.example/u/mod1"),
                inbox: s("https://b.example/u/mod1/inbox"),
            },
            PersonRecord {
                id: 3,
                actor_id: s("https://c.example/u/carol"),
                inbox: s("https://c.example/u/carol/inbox"),
            },
        ],
        posts: vec![PostRecord { id: 4, ap_id: s("https://a.example/post/99") }],
        votes: vec![],
        members: vec![MemberRecord { person_id: 2, community_id: 1 }],
        moderators: vec![ModeratorRecord { person_id: 2, community_id: 1 }],
    }
}

fn empty_dir() -> RemoteDirectory {
    RemoteDirectory { actors: vec![], posts: vec![] }
}

fn update_act(actor: &str, id: &str, cc: &str, title: &str) -> AnnouncableActivities {
    AnnouncableActivities::UpdateCommunity(UpdateCommunity {
        to: Audience::Public,
        object: CommunityObjectForm {
            name: s("linux"),
            title: s(title),
            description: Some(s("all about linux")),
            nsfw: false,
            icon: None,
            banner: None,
        },
        cc: vec![s(cc)],
        common: ActivityCommonFields { id: s(id), actor: s(actor), unparsed: vec![] },
    })
}

fn dislike_act(actor: &str, id: &str, object: &str) -> AnnouncableActivities {
    AnnouncableActivities::DislikePost(DislikePost {
        to: Audience::Public,
        object: s(object),
        cc: vec![s("https://b.example/c/linux")],
        common: ActivityCommonFields { id: s(id), actor: s(actor), unparsed: vec![] },
    })
}

#[test]
fn update_from_moderator_applies_and_notifies_once() {
    let mut state = base_state();
    let mut notifications: Vec<Notification> = Vec::new();
    let act = update_act(
        "https://b.example/u/mod1",
        "https://b.example/activities/update/7",
        "https://b.example/c/linux",
        "Linux Chat",
    );
    let r = receive_activity(&mut state, &empty_dir(), act, 10, &mut notifications);
    assert_eq!(r, Ok(()));
    assert_eq!(state.communities[0].title, s("Linux Chat"));
    assert_eq!(state.communities[0].name, s("linux"));
    assert_eq!(state.communities[0].description, Some(s("all about linux")));
    // identity and followers are kept by the merge
    assert_eq!(state.communities[0].id, 1);
    assert_eq!(state.communities[0].actor_id, s("https://b.example/c/linux"));
    assert_eq!(state.communities[0].follower_inboxes.len(), 2);
    assert_eq!(
        notifications,
        vec![Notification { entity_id: 1, op: UserOperation::EditCommunity }]
    );
}

#[test]
fn domain_mismatch_is_rejected_without_effect() {
    let mut state = base_state();
    let mut notifications: Vec<Notification> = Vec::new();
    let act = update_act(
        "https://b.example/u/mod1",
        "https://evil.example/activities/update/7",
        "https://b.example/c/linux",
        "Linux Chat",
    );
    let r = receive_activity(&mut state, &empty_dir(), act, 10, &mut notifications);
    assert_eq!(r, Err(FedError::DomainMismatch));
    assert_eq!(state.communities[0].title, s("Old Title"));
    assert!(notifications.is_empty());
}

#[test]
fn malformed_actor_uri_is_rejected() {
    let mut state = base_state();
    let mut notifications: Vec<Notification> = Vec::new();
    let act = update_act(
        "not a uri",
        "https://b.example/activities/update/7",
        "https://b.example/c/linux",
        "Linux Chat",
    );
    let r = receive_activity(&mut state, &empty_dir(), act, 10, &mut notifications);
    assert_eq!(r, Err(FedError::MalformedEnvelope));
    assert_eq!(state.communities[0].title, s("Old Title"));
    assert!(notifications.is_empty());
}

#[test]
fn update_from_member_without_mod_rank_is_not_authorized() {
    let mut state = base_state();
    state.members.push(MemberRecord { person_id: 3, community_id: 1 });
    let mut notifications: Vec<Notification> = Vec::new();
    let act = update_act(
        "https://c.example/u/carol",
        "https://c.example/activities/update/7",
        "https://b.example/c/linux",
        "Linux Chat",
    );
    let r = receive_activity(&mut state, &empty_dir(), act, 10, &mut notifications);
    assert_eq!(r, Err(FedError::NotAuthorized(AuthzRule::ModAction)));
    assert_eq!(state.communities[0].title, s("Old Title"));
    assert!(notifications.is_empty());
}

#[test]
fn update_from_non_member_is_rejected() {
    let mut state = base_state();
    let mut notifications: Vec<Notification> = Vec::new();
    let act = update_act(
        "https://c.example/u/carol",
        "https://c.example/activities/update/7",
        "https://b.example/c/linux",
        "Linux Chat",
    );
    let r = receive_activity(&mut state, &empty_dir(), act, 10, &mut notifications);
    assert_eq!(r, Err(FedError::NotAMember));
    assert_eq!(state.communities[0].title, s("Old Title"));
    assert!(notifications.is_empty());
}

#[test]
fn update_from_freshly_fetched_actor_fails_closed() {
    let mut state = base_state();
    let mut notifications: Vec<Notification> = Vec::new();
    let dir = RemoteDirectory {
        actors: vec![RemoteActor {
            actor_id: s("https://e.example/u/dan"),
            inbox: s("https://e.example/u/dan/inbox"),
        }],
        posts: vec![],
    };
    let act = update_act(
        "https://e.example/u/dan",
        "https://e.example/activities/update/7",
        "https://b.example/c/linux",
        "Linux Chat",
    );
    let r = receive_activity(&mut state, &dir, act, 10, &mut notifications);
    // the actor resolves and is cached, but a fresh actor is no member
    assert_eq!(r, Err(FedError::NotAMember));
    assert_eq!(state.persons.len(), 3);
    assert_eq!(state.persons[2].actor_id, s("https://e.example/u/dan"));
    assert_eq!(state.communities[0].title, s("Old Title"));
    assert!(notifications.is_empty());
}

#[test]
fn update_for_unknown_community_is_not_found() {
    let mut state = base_state();
    let mut notifications: Vec<Notification> = Vec::new();
    let act = update_act(
        "https://b.example/u/mod1",
        "https://b.example/activities/update/7",
        "https://b.example/c/unknown",
        "Linux Chat",
    );
    let r = receive_activity(&mut state, &empty_dir(), act, 10, &mut notifications);
    assert_eq!(r, Err(FedError::NotFound(Entity::Community)));
    assert!(notifications.is_empty());
}

#[test]
fn update_with_malformed_addressing_is_rejected() {
    let mut state = base_state();
    let mut notifications: Vec<Notification> = Vec::new();
    let act = AnnouncableActivities::UpdateCommunity(UpdateCommunity {
        to: Audience::Public,
        object: CommunityObjectForm {
            name: s("linux"),
            title: s("Linux Chat"),
            description: None,
            nsfw: false,
            icon: None,
            banner: None,
        },
        cc: vec![s("https://b.example/c/linux"), s("https://b.example/c/extra")],
        common: ActivityCommonFields {
            id: s("https://b.example/activities/update/7"),
            actor: s("https://b.example/u/mod1"),
            unparsed: vec![],
        },
    });
    let r = receive_activity(&mut state, &empty_dir(), act, 10, &mut notifications);
    assert_eq!(r, Err(FedError::MalformedEnvelope));
    assert_eq!(state.communities[0].title, s("Old Title"));
}

#[test]
fn applying_the_same_update_twice_is_idempotent() {
    let mut state = base_state();
    let mut notifications: Vec<Notification> = Vec::new();
    let act = update_act(
        "https://b.example/u/mod1",
        "https://b.example/activities/update/7",
        "https://b.example/c/linux",
        "Linux Chat",
    );
    let act_again = update_act(
        "https://b.example/u/mod1",
        "https://b.example/activities/update/7",
        "https://b.example/c/linux",
        "Linux Chat",
    );
    assert_eq!(receive_activity(&mut state, &empty_dir(), act, 10, &mut notifications), Ok(()));
    let title_once = state.communities[0].title.clone();
    let desc_once = state.communities[0].description.clone();
    assert_eq!(
        receive_activity(&mut state, &empty_dir(), act_again, 10, &mut notifications),
        Ok(()),
    );
    assert_eq!(state.communities.len(), 1);
    assert_eq!(state.communities[0].title, title_once);
    assert_eq!(state.communities[0].description, desc_once);
    assert_eq!(state.communities[0].id, 1);
}

#[test]
fn dislike_from_non_member_is_accepted() {
    let mut state = base_state();
    let mut notifications: Vec<Notification> = Vec::new();
    // carol is no member of any community: votes pass no membership gate
    let act = dislike_act(
        "https://c.example/u/carol",
        "https://c.example/activities/dislike/1",
        "https://a.example/post/99",
    );
    let r = receive_activity(&mut state, &empty_dir(), act, 10, &mut notifications);
    assert_eq!(r, Ok(()));
    assert_eq!(state.votes.len(), 1);
    assert_eq!(state.votes[0].person_id, 3);
    assert_eq!(state.votes[0].post_id, 4);
    assert_eq!(state.votes[0].score, -1);
    assert_eq!(
        notifications,
        vec![Notification { entity_id: 4, op: UserOperation::CreatePostVote }]
    );
}

#[test]
fn two_dislikes_from_one_actor_leave_one_vote() {
    let mut state = base_state();
    let mut notifications: Vec<Notification> = Vec::new();
    let first = dislike_act(
        "https://c.example/u/carol",
        "https://c.example/activities/dislike/1",
        "https://a.example/post/99",
    );
    let second = dislike_act(
        "https://c.example/u/carol",
        "https://c.example/activities/dislike/2",
        "https://a.example/post/99",
    );
    assert_eq!(receive_activity(&mut state, &empty_dir(), first, 10, &mut notifications), Ok(()));
    assert_eq!(receive_activity(&mut state, &empty_dir(), second, 10, &mut notifications), Ok(()));
    assert_eq!(state.votes.len(), 1);
    assert_eq!(state.votes[0].score, -1);
}

#[test]
fn dislike_resolves_and_caches_unknown_actor() {
    let mut state = base_state();
    let mut notifications: Vec<Notification> = Vec::new();
    let dir = RemoteDirectory {
        actors: vec![RemoteActor {
            actor_id: s("https://e.example/u/dan"),
            inbox: s("https://e.example/u/dan/inbox"),
        }],
        posts: vec![],
    };
    let act = dislike_act(
        "https://e.example/u/dan",
        "https://e.example/activities/dislike/1",
        "https://a.example/post/99",
    );
    let r = receive_activity(&mut state, &dir, act, 10, &mut notifications);
    assert_eq!(r, Ok(()));
    assert_eq!(state.persons.len(), 3);
    assert_eq!(state.persons[2].actor_id, s("https://e.example/u/dan"));
    assert_eq!(state.persons[2].id, 10);
    assert_eq!(state.next_id, 11);
    assert_eq!(state.votes.len(), 1);
    assert_eq!(state.votes[0].person_id, 10);
}

#[test]
fn dislike_from_unresolvable_actor_is_not_found() {
    let mut state = base_state();
    let mut notifications: Vec<Notification> = Vec::new();
    let act = dislike_act(
        "https://e.example/u/ghost",
        "https://e.example/activities/dislike/1",
        "https://a.example/post/99",
    );
    let r = receive_activity(&mut state, &empty_dir(), act, 10, &mut notifications);
    assert_eq!(r, Err(FedError::NotFound(Entity::Person)));
    assert!(state.votes.is_empty());
    assert!(notifications.is_empty());
}

#[test]
fn dislike_of_unresolvable_post_is_not_found() {
    let mut state = base_state();
    let mut notifications: Vec<Notification> = Vec::new();
    let act = dislike_act(
        "https://c.example/u/carol",
        "https://c.example/activities/dislike/1",
        "https://a.example/post/unknown",
    );
    let r = receive_activity(&mut state, &empty_dir(), act, 10, &mut notifications);
    assert_eq!(r, Err(FedError::NotFound(Entity::Post)));
    assert!(state.votes.is_empty());
}

#[test]
fn resolution_chain_past_the_limit_is_rejected() {
    let mut state = base_state();
    let mut notifications: Vec<Notification> = Vec::new();
    let dir = RemoteDirectory {
        actors: vec![RemoteActor {
            actor_id: s("https://e.example/u/dan"),
            inbox: s("https://e.example/u/dan/inbox"),
        }],
        posts: vec![RemotePost { ap_id: s("https://e.example/post/5") }],
    };
    // both the actor and the post are unknown: the chain needs two units
    let act = dislike_act(
        "https://e.example/u/dan",
        "https://e.example/activities/dislike/1",
        "https://e.example/post/5",
    );
    let r = receive_activity(&mut state, &dir, act, 1, &mut notifications);
    assert_eq!(r, Err(FedError::RecursionLimitExceeded));
    assert!(state.votes.is_empty());
    assert!(notifications.is_empty());
}

#[test]
fn resolution_chain_within_the_limit_succeeds() {
    let mut state = base_state();
    let mut notifications: Vec<Notification> = Vec::new();
    let dir = RemoteDirectory {
        actors: vec![RemoteActor {
            actor_id: s("https://e.example/u/dan"),
            inbox: s("https://e.example/u/dan/inbox"),
        }],
        posts: vec![RemotePost { ap_id: s("https://e.example/post/5") }],
    };
    let act = dislike_act(
        "https://e.example/u/dan",
        "https://e.example/activities/dislike/1",
        "https://e.example/post/5",
    );
    let r = receive_activity(&mut state, &dir, act, 2, &mut notifications);
    assert_eq!(r, Ok(()));
    assert_eq!(state.persons.len(), 3);
    assert_eq!(state.posts.len(), 2);
    assert_eq!(state.votes.len(), 1);
}

#[test]
fn spent_id_space_is_a_storage_failure() {
    let mut state = base_state();
    state.next_id = u64::MAX;
    let mut notifications: Vec<Notification> = Vec::new();
    let dir = RemoteDirectory {
        actors: vec![RemoteActor {
            actor_id: s("https://e.example/u/dan"),
            inbox: s("https://e.example/u/dan/inbox"),
        }],
        posts: vec![],
    };
    let act = dislike_act(
        "https://e.example/u/dan",
        "https://e.example/activities/dislike/1",
        "https://a.example/post/99",
    );
    let r = receive_activity(&mut state, &dir, act, 10, &mut notifications);
    assert_eq!(r, Err(FedError::StorageFailure));
    assert!(state.votes.is_empty());
}

#[test]
fn the_envelope_is_readable_without_the_concrete_kind() {
    let act = dislike_act(
        "https://c.example/u/carol",
        "https://c.example/activities/dislike/1",
        "https://a.example/post/99",
    );
    assert_eq!(act.common().actor, s("https://c.example/u/carol"));
    assert_eq!(act.common().id, s("https://c.example/activities/dislike/1"));
}

#[test]
fn zero_limit_rejects_any_resolution() {
    let mut state = base_state();
    let mut notifications: Vec<Notification> = Vec::new();
    let dir = RemoteDirectory {
        actors: vec![RemoteActor {
            actor_id: s("https://e.example/u/dan"),
            inbox: s("https://e.example/u/dan/inbox"),
        }],
        posts: vec![],
    };
    let act = dislike_act(
        "https://e.example/u/dan",
        "https://e.example/activities/dislike/1",
        "https://a.example/post/99",
    );
    let r = receive_activity(&mut state, &dir, act, 0, &mut notifications);
    assert_eq!(r, Err(FedError::RecursionLimitExceeded));
    assert!(state.persons.len() == 2);
}
