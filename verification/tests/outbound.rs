use fedcore::community::UpdateCommunity;
use fedcore::dispatch::AnnouncableActivities;
use fedcore::envelope::Audience;
use fedcore::outbound::{
    delivery_report, generate_activity_id, next_delivery_status, resolve_inboxes, u64_to_dec,
    DeliveryStatus,
};
use fedcore::state::{CommunityRecord, LocalState, PersonRecord};
use fedcore::uri::{check_uri_valid, verify_domains_match};
use fedcore::error::FedError;

fn s(x: &str) -> String {
    x.to_string()
}

fn community_with_followers(followers: Vec<String>) -> CommunityRecord {
    CommunityRecord {
        id: 1,
        actor_id: s("https://a.example/c/linux"),
        name: s("linux"),
        title: s("Linux"),
        description: Some(s("chat")),
        nsfw: false,
        icon: None,
        banner: None,
        follower_inboxes: followers,
    }
}

#[test]
fn inbox_resolution_deduplicates_followers_and_extras() {
    let community = community_with_followers(vec![
        s("https://c.example/inbox"),
        s("https://d.example/u/alice/inbox"),
        s("https://c.example/inbox"),
    ]);
    let extra = vec![s("https://d.example/u/alice/inbox"), s("https://e.example/inbox")];
    let r = resolve_inboxes(&community, &extra);
    assert_eq!(
        r,
        vec![
            s("https://c.example/inbox"),
            s("https://d.example/u/alice/inbox"),
            s("https://e.example/inbox"),
        ]
    );
}

#[test]
fn inbox_resolution_of_empty_sets_is_empty() {
    let community = community_with_followers(vec![]);
    let extra: Vec<String> = vec![];
    assert!(resolve_inboxes(&community, &extra).is_empty());
}

#[test]
fn decimal_rendering_is_exact() {
    assert_eq!(u64_to_dec(0), s("0"));
    assert_eq!(u64_to_dec(7), s("7"));
    assert_eq!(u64_to_dec(905), s("905"));
    assert_eq!(u64_to_dec(u64::MAX), s("18446744073709551615"));
}

#[test]
fn minted_ids_live_under_the_instance_authority() {
    assert_eq!(
        generate_activity_id(&s("a.example"), 7),
        s("https://a.example/activities/update/7")
    );
}

#[test]
fn send_wraps_the_community_row_and_bumps_the_token() {
    let community = community_with_followers(vec![
        s("https://c.example/inbox"),
        s("https://c.example/inbox"),
        s("https://d.example/inbox"),
    ]);
    let actor = PersonRecord {
        id: 2,
        actor_id: s("https://a.example/u/admin"),
        inbox: s("https://a.example/u/admin/inbox"),
    };
    let mut state = LocalState {
        instance_host: s("a.example"),
        next_id: 10,
        next_activity_seq: 41,
        communities: vec![],
        persons: vec![],
        posts: vec![],
        votes: vec![],
        members: vec![],
        moderators: vec![],
    };
    let first = UpdateCommunity::send(&community, &actor, &mut state);
    let second = UpdateCommunity::send(&community, &actor, &mut state);
    assert_eq!(state.next_activity_seq, 43);
    assert_eq!(first.inboxes, vec![s("https://c.example/inbox"), s("https://d.example/inbox")]);
    match (first.activity, second.activity) {
        (
            AnnouncableActivities::UpdateCommunity(u1),
            AnnouncableActivities::UpdateCommunity(u2),
        ) => {
            assert_eq!(u1.common.id, s("https://a.example/activities/update/41"));
            assert_eq!(u2.common.id, s("https://a.example/activities/update/42"));
            assert_eq!(u1.common.actor, s("https://a.example/u/admin"));
            assert!(matches!(u1.to, Audience::Public));
            assert_eq!(u1.cc, vec![s("https://a.example/c/linux")]);
            assert_eq!(u1.object.name, s("linux"));
            assert_eq!(u1.object.title, s("Linux"));
            assert_eq!(u1.object.description, Some(s("chat")));
        },
        _ => panic!("send must wrap an update"),
    }
}

#[test]
fn delivery_attempts_are_bounded() {
    assert_eq!(next_delivery_status(true, 0, 3), DeliveryStatus::Delivered);
    assert_eq!(next_delivery_status(false, 1, 3), DeliveryStatus::Pending);
    assert_eq!(next_delivery_status(false, 3, 3), DeliveryStatus::Abandoned);
}

#[test]
fn an_abandoned_delivery_is_reported_as_a_delivery_failure() {
    assert_eq!(delivery_report(DeliveryStatus::Delivered), Ok(()));
    assert_eq!(delivery_report(DeliveryStatus::Pending), Ok(()));
    assert_eq!(
        delivery_report(DeliveryStatus::Abandoned),
        Err(FedError::DeliveryFailure)
    );
}

#[test]
fn domain_check_reads_the_host_out_of_the_uri() {
    // same host under different paths: equal hosts, not equal strings
    assert_eq!(
        verify_domains_match(&s("https://x.example/a"), &s("https://x.example/b")),
        Ok(())
    );
    assert_eq!(
        verify_domains_match(&s("https://x.example/a"), &s("https://y.example/a")),
        Err(FedError::DomainMismatch)
    );
    assert_eq!(
        verify_domains_match(&s("relative/path"), &s("https://x.example/a")),
        Err(FedError::MalformedEnvelope)
    );
    assert_eq!(check_uri_valid(&s("https://x.example/a")), Ok(()));
    assert_eq!(check_uri_valid(&s("not a uri")), Err(FedError::MalformedEnvelope));
    assert_eq!(check_uri_valid(&s("data:text/plain,hello")), Err(FedError::MalformedEnvelope));
}
