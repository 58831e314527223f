use lemmy_federation::api::{create_post_like, LocalVote};
use lemmy_federation::apub::activities::{
    announce_activity, delete_user_activity, send_lemmy_activity, undo_activity, undo_vote_comment,
    undo_vote_post,
    verify_delete_user, verify_is_public, verify_urls_match, vote_activity, vote_comment,
    vote_post, VoteType, PUBLIC,
};
use lemmy_federation::apub::dispatch::handle;
use lemmy_federation::apub::activity_queue::{
    backoff, unique_inboxes, DeliveryError, DeliveryQueue, JobStatus,
};
use lemmy_federation::apub::community::{
    announce_if_community_is_local, community_uri, delivery_address, do_announce, follower_inboxes,
    get_community_id_from_activity,
};
use lemmy_federation::apub::handlers::{receive_delete, Notification, Receipt};
use lemmy_federation::apub::model::{
    Activity, ActivityBody, ActivityKind, Actor, ObjectDoc, ObjectKind, ValidTypes,
};
use lemmy_federation::apub::store::Store;
use lemmy_federation::websocket::UserOperation;

fn actor(uri: &str, local: bool, shared_inbox: Option<&str>) -> Actor {
    Actor {
        uri: uri.to_string(),
        name: "name".to_string(),
        public_key: "public".to_string(),
        private_key: if local { Some("private".to_string()) } else { None },
        inbox_url: format!("{}/inbox", uri),
        shared_inbox_url: shared_inbox.map(|s| s.to_string()),
        local,
        last_refreshed_at: 0,
    }
}

fn strings(items: &[&str]) -> Vec<String> {
    items.iter().map(|s| s.to_string()).collect()
}

fn like_of(object: &str) -> Activity {
    Activity {
        id: "https://b.example/a/1".to_string(),
        kind: ActivityKind::from_name("Like"),
        actor: "https://b.example/u/bob".to_string(),
        to: strings(&[PUBLIC]),
        cc: strings(&["https://here.example/c/main/followers"]),
        updated: 5,
        body: ActivityBody::Link(object.to_string()),
    }
}

// ----- the queue -----

#[test]
fn inboxes_are_taken_once() {
    assert_eq!(
        unique_inboxes(&strings(&["https://a/inbox", "https://b/inbox", "https://a/inbox", "https://c/inbox", "https://b/inbox"])),
        strings(&["https://a/inbox", "https://b/inbox", "https://c/inbox"])
    );
    assert_eq!(unique_inboxes(&vec![]), Vec::<String>::new());
}

#[test]
fn one_job_per_distinct_inbox() {
    let mut queue = DeliveryQueue::new(3, 60);
    let sender = actor("https://here.example/u/alice", true, None);
    let to = strings(&["https://a/inbox", "https://b/inbox", "https://a/inbox"]);
    assert_eq!(queue.send_activity(&"{}".to_string(), &sender, &to, 100), Ok(2));
    assert_eq!(queue.pending(), 2);
    let first = queue.next_due(100).unwrap();
    assert_eq!(first.id, 1);
    assert_eq!(first.inbox, "https://a/inbox");
    assert_eq!(first.body, "{}");
    assert_eq!(first.actor, "https://here.example/u/alice");
    assert_eq!(first.private_key, "private");
    assert_eq!(first.attempts, 0);
    assert_eq!(first.next_attempt_at, 100);
    assert!(queue.next_due(99).is_none());
}

#[test]
fn remote_actor_cannot_send() {
    let mut queue = DeliveryQueue::new(3, 60);
    let remote = actor("https://a.example/u/alice", false, None);
    assert_eq!(
        queue.send_activity(&"{}".to_string(), &remote, &strings(&["https://b/inbox"]), 100),
        Err(DeliveryError::NoPrivateKey)
    );
    assert_eq!(queue.pending(), 0);
}

#[test]
fn a_queue_out_of_numbers_takes_nothing() {
    let mut queue = DeliveryQueue::with_first_job(3, 60, u64::MAX - 1);
    let sender = actor("https://here.example/u/alice", true, None);
    let body = "{}".to_string();
    assert_eq!(
        queue.send_activity(&body, &sender, &strings(&["https://a/inbox", "https://b/inbox"]), 0),
        Err(DeliveryError::QueueFull)
    );
    assert_eq!(queue.pending(), 0);
    assert_eq!(queue.send_activity(&body, &sender, &strings(&["https://a/inbox"]), 0), Ok(1));
    assert_eq!(queue.next_due(0).unwrap().id, u64::MAX - 1);
    assert_eq!(
        queue.send_activity(&body, &sender, &strings(&["https://a/inbox"]), 0),
        Err(DeliveryError::QueueFull)
    );
    assert_eq!(queue.send_activity(&body, &sender, &vec![], 0), Ok(0));
}

#[test]
fn failure_on_one_target_leaves_the_others() {
    let mut queue = DeliveryQueue::new(3, 60);
    let sender = actor("https://here.example/u/alice", true, None);
    let to = strings(&["https://a/inbox", "https://b/inbox", "https://c/inbox"]);
    assert_eq!(queue.send_activity(&"{}".to_string(), &sender, &to, 100), Ok(3));

    assert_eq!(queue.report(1, false, 100), JobStatus::Retry(160));
    assert_eq!(queue.pending(), 3);
    // The failed job waits; the next one is due.
    let due = queue.next_due(100).unwrap();
    assert_eq!(due.id, 2);
    assert_eq!(due.inbox, "https://b/inbox");
    assert_eq!(due.attempts, 0);
    assert_eq!(queue.report(2, true, 101), JobStatus::Delivered);
    assert_eq!(queue.next_due(101).unwrap().id, 3);
    assert_eq!(queue.report(3, true, 102), JobStatus::Delivered);
    assert!(queue.next_due(159).is_none());

    let retry = queue.next_due(160).unwrap();
    assert_eq!(retry.id, 1);
    assert_eq!(retry.attempts, 1);
    assert_eq!(queue.report(1, false, 160), JobStatus::Retry(160 + 120));
    assert_eq!(queue.report(1, false, 280), JobStatus::Dropped);
    assert_eq!(queue.pending(), 0);
    assert_eq!(queue.report(1, false, 300), JobStatus::Unknown);
    assert_eq!(queue.report(77, true, 300), JobStatus::Unknown);
}

#[test]
fn a_single_attempt_policy_drops_at_once() {
    let mut queue = DeliveryQueue::new(1, 60);
    let sender = actor("https://here.example/u/alice", true, None);
    assert_eq!(queue.send_activity(&"{}".to_string(), &sender, &strings(&["https://a/inbox"]), 0), Ok(1));
    assert_eq!(queue.report(1, false, 0), JobStatus::Dropped);
    let mut never = DeliveryQueue::new(0, 60);
    assert_eq!(never.send_activity(&"{}".to_string(), &sender, &strings(&["https://a/inbox"]), 0), Ok(1));
    assert_eq!(never.report(1, false, 0), JobStatus::Dropped);
}

#[test]
fn backoff_doubles_and_saturates() {
    assert_eq!(backoff(60, 0), 60);
    assert_eq!(backoff(60, 1), 60);
    assert_eq!(backoff(60, 2), 120);
    assert_eq!(backoff(60, 3), 240);
    assert_eq!(backoff(60, 10), 60 * 512);
    assert_eq!(backoff(0, 5), 0);
    assert_eq!(backoff(-5, 3), 0);
    assert_eq!(backoff(1, 63), 1i64 << 62);
    assert_eq!(backoff(1, 64), i64::MAX);
    assert_eq!(backoff(3, 200), i64::MAX);
    let mut queue = DeliveryQueue::new(100, i64::MAX);
    let sender = actor("https://here.example/u/alice", true, None);
    assert_eq!(queue.send_activity(&"{}".to_string(), &sender, &strings(&["https://a/inbox"]), 0), Ok(1));
    assert_eq!(queue.report(1, false, 10), JobStatus::Retry(i64::MAX));
}

// ----- communities -----

#[test]
fn community_of_a_followers_collection() {
    assert_eq!(community_uri("https://here.example/c/main/followers"), "https://here.example/c/main");
    assert_eq!(community_uri("https://here.example/c/main"), "https://here.example/c/main");
    assert_eq!(community_uri("/followers/followers"), "");
    let like = like_of("https://a.example/note/1");
    assert_eq!(
        get_community_id_from_activity(&like),
        Some(&"https://here.example/c/main/followers".to_string())
    );
    let mut no_cc = like_of("https://a.example/note/1");
    no_cc.cc = vec![];
    assert_eq!(get_community_id_from_activity(&no_cc), None);
}

#[test]
fn only_local_communities_announce() {
    let mut store = Store::new();
    let like = like_of("https://a.example/note/1");
    assert!(announce_if_community_is_local(&store, &like).is_none());
    store.upsert_actor(actor("https://here.example/c/main", true, None));
    let community = announce_if_community_is_local(&store, &like).unwrap();
    assert_eq!(community.uri, "https://here.example/c/main");

    let mut elsewhere = like_of("https://a.example/note/1");
    elsewhere.cc = strings(&["https://a.example/c/news/followers"]);
    store.upsert_actor(actor("https://a.example/c/news", false, None));
    assert!(announce_if_community_is_local(&store, &elsewhere).is_none());
    elsewhere.cc = vec![];
    assert!(announce_if_community_is_local(&store, &elsewhere).is_none());
}

#[test]
fn announcements_go_to_remote_followers_once_per_inbox() {
    let followers = vec![
        actor("https://a.example/u/one", false, Some("https://a.example/inbox")),
        actor("https://a.example/u/two", false, Some("https://a.example/inbox")),
        actor("https://here.example/u/local", true, None),
        actor("https://b.example/u/three", false, None),
    ];
    assert_eq!(delivery_address(&followers[0]), "https://a.example/inbox");
    assert_eq!(delivery_address(&followers[3]), "https://b.example/u/three/inbox");
    assert_eq!(
        follower_inboxes(&followers),
        strings(&["https://a.example/inbox", "https://a.example/inbox", "https://b.example/u/three/inbox"])
    );

    let mut store = Store::new();
    let mut queue = DeliveryQueue::new(3, 60);
    let community = actor("https://here.example/c/main", true, None);
    let announce = announce_activity(
        &community,
        like_of("https://a.example/note/1"),
        "https://here.example/a/announce/1".to_string(),
        7,
    );
    assert_eq!(announce.id, "https://here.example/a/announce/1");
    assert!(matches!(announce.kind, ActivityKind::Known(ValidTypes::Announce)));
    assert_eq!(announce.actor, community.uri);
    assert_eq!(announce.to, strings(&[PUBLIC]));
    assert_eq!(announce.cc, strings(&["https://here.example/c/main/followers"]));
    assert_eq!(announce.updated, 7);
    match &announce.body {
        ActivityBody::Activity(relayed) => assert_eq!(relayed.id, "https://b.example/a/1"),
        other => panic!("unexpected body {:?}", other),
    }
    assert_eq!(community_uri(&announce.cc[0]), community.uri);
    assert_eq!(
        do_announce(&mut store, &mut queue, &announce, &"{\"type\":\"Announce\"}".to_string(), &community, &followers, 7),
        Ok(2)
    );
    assert_eq!(queue.pending(), 2);
    assert_eq!(queue.next_due(7).unwrap().inbox, "https://a.example/inbox");
    assert_eq!(queue.next_due(7).unwrap().body, "{\"type\":\"Announce\"}");
    assert!(store.is_known(&"https://here.example/a/announce/1".to_string()));
    assert_eq!(store.ledger_len(), 1);

    let keyless = actor("https://here.example/c/other", false, None);
    assert_eq!(
        do_announce(&mut store, &mut queue, &announce, &"{}".to_string(), &keyless, &followers, 8),
        Err(DeliveryError::NoPrivateKey)
    );
    assert_eq!(queue.pending(), 2);
    assert_eq!(store.ledger_len(), 1);
}

#[test]
fn sending_records_and_enqueues() {
    let mut store = Store::new();
    let mut queue = DeliveryQueue::new(3, 60);
    let alice = actor("https://here.example/u/alice", true, None);
    let delete = delete_user_activity(&alice, "https://here.example/a/delete/1".to_string(), 50);
    let made = send_lemmy_activity(
        &mut store,
        &mut queue,
        &delete,
        &"{}".to_string(),
        &alice,
        &strings(&["https://a.example/inbox", "https://b.example/inbox"]),
        50,
    );
    assert_eq!(made, Ok(2));
    assert_eq!(queue.pending(), 2);
    assert!(store.is_known(&"https://here.example/a/delete/1".to_string()));
}

// ----- votes -----

#[test]
fn votes_by_local_key() {
    let mut store = Store::new();
    let bob = "https://b.example/u/bob".to_string();
    assert_eq!(VoteType::Like.score(), 1);
    assert_eq!(VoteType::Dislike.score(), -1);
    assert_eq!(
        vote_post(&mut store, VoteType::Like, &bob, 4),
        Notification { op: UserOperation::CreatePostLike, object_id: 4 }
    );
    assert_eq!(store.reaction(4, &bob), Some(1));
    assert_eq!(
        vote_comment(&mut store, VoteType::Dislike, &bob, 9),
        Notification { op: UserOperation::CreateCommentLike, object_id: 9 }
    );
    assert_eq!(store.reaction(9, &bob), Some(-1));
    vote_post(&mut store, VoteType::Dislike, &bob, 4);
    assert_eq!(store.reaction(4, &bob), Some(-1));
    assert_eq!(store.reaction_count(), 2);
    assert_eq!(
        undo_vote_post(&mut store, &bob, 4),
        Notification { op: UserOperation::CreatePostLike, object_id: 4 }
    );
    assert_eq!(store.reaction(4, &bob), None);
    assert_eq!(
        undo_vote_comment(&mut store, &bob, 9),
        Notification { op: UserOperation::CreateCommentLike, object_id: 9 }
    );
    undo_vote_comment(&mut store, &bob, 9);
    assert_eq!(store.reaction_count(), 0);
}

// ----- deletion of an account -----

#[test]
fn an_account_is_deleted_by_itself_in_public() {
    let alice = actor("https://a.example/u/alice", false, None);
    let delete = delete_user_activity(&alice, "https://a.example/a/9".to_string(), 50);
    assert_eq!(delete.id, "https://a.example/a/9");
    assert!(matches!(delete.kind, ActivityKind::Known(ValidTypes::Delete)));
    assert_eq!(delete.actor, alice.uri);
    assert_eq!(delete.to, strings(&[PUBLIC]));
    assert!(delete.cc.is_empty());
    assert_eq!(delete.updated, 50);
    assert!(verify_delete_user(&delete));

    let mut private = delete_user_activity(&alice, "https://a.example/a/9".to_string(), 50);
    private.to = strings(&["https://b.example/u/bob"]);
    assert!(!verify_delete_user(&private));
    // Being public through `cc` alone does not do.
    private.cc = strings(&[PUBLIC]);
    assert!(!verify_delete_user(&private));

    let mut other = delete_user_activity(&alice, "https://a.example/a/9".to_string(), 50);
    other.body = ActivityBody::Link("https://a.example/u/carol".to_string());
    assert!(!verify_delete_user(&other));

    assert!(verify_is_public(&strings(&["x", PUBLIC]), &vec![]));
    assert!(!verify_is_public(&strings(&["x"]), &strings(&["y"])));
    assert!(verify_urls_match(&"a".to_string(), &"a".to_string()));
    assert!(!verify_urls_match(&"a".to_string(), &"b".to_string()));

    // The deletion flags the profile, if one is stored.
    let mut store = Store::new();
    let profile = ObjectDoc {
        id: alice.uri.clone(),
        kind: "Person".to_string(),
        attributed_to: alice.uri.clone(),
        parent: None,
        to: None,
        content: "about me".to_string(),
        published: 1,
        updated: None,
    };
    let id = store.upsert_object(&profile, ObjectKind::Person, 1).unwrap();
    assert_eq!(
        receive_delete(&mut store, &delete),
        Ok(Receipt::Applied(Notification { op: UserOperation::SaveUserSettings, object_id: id }))
    );
    let stored = store.object(&alice.uri).unwrap();
    assert!(stored.deleted);
    assert_eq!(stored.content, "about me");
}

#[test]
fn votes_of_local_users() {
    let mut store = Store::new();
    let alice = "https://here.example/u/alice".to_string();
    assert_eq!(create_post_like(&mut store, 1, &alice, 5, true, false, false).unwrap(), LocalVote::Like);
    assert_eq!(store.reaction(5, &alice), Some(1));
    assert_eq!(create_post_like(&mut store, -1, &alice, 5, true, false, false).unwrap(), LocalVote::Dislike);
    assert_eq!(store.reaction(5, &alice), Some(-1));
    assert_eq!(store.reaction_count(), 1);
    assert_eq!(
        create_post_like(&mut store, -1, &alice, 5, false, false, false).unwrap_err().message,
        "downvotes_disabled"
    );
    assert_eq!(
        create_post_like(&mut store, 1, &alice, 5, true, true, false).unwrap_err().message,
        "community_is_private"
    );
    assert_eq!(
        create_post_like(&mut store, -1, &alice, 5, false, true, false).unwrap_err().message,
        "downvotes_disabled"
    );
    assert_eq!(store.reaction(5, &alice), Some(-1));
    assert_eq!(create_post_like(&mut store, 1, &alice, 5, false, true, true).unwrap(), LocalVote::Like);
    assert_eq!(create_post_like(&mut store, 0, &alice, 5, true, false, false).unwrap(), LocalVote::UndoLike);
    assert_eq!(store.reaction(5, &alice), None);
    assert_eq!(create_post_like(&mut store, 7, &alice, 5, true, false, false).unwrap(), LocalVote::UndoLike);
    assert_eq!(store.reaction_count(), 0);
}

#[test]
fn a_vote_sent_is_a_vote_received() {
    // What one server sends out, another takes in.
    let alice = actor("https://here.example/u/alice", true, None);
    let post = "https://there.example/post/1".to_string();
    let followers = "https://there.example/c/main/followers".to_string();
    let the_like = || {
        vote_activity(VoteType::Like, &alice, &post, &followers, "https://here.example/a/1".to_string(), 10)
    };
    let sent = the_like();
    assert_eq!(sent.id, "https://here.example/a/1");
    assert!(matches!(sent.kind, ActivityKind::Known(ValidTypes::Like)));
    assert_eq!(sent.to, strings(&[PUBLIC]));
    assert_eq!(sent.cc, vec![followers.clone()]);
    assert!(matches!(
        vote_activity(VoteType::Dislike, &alice, &post, &followers, "x".to_string(), 10).kind,
        ActivityKind::Known(ValidTypes::Dislike)
    ));

    let mut there = Store::new();
    let doc = ObjectDoc {
        id: post.clone(),
        kind: "Page".to_string(),
        attributed_to: "https://there.example/u/bob".to_string(),
        parent: None,
        to: None,
        content: "a post".to_string(),
        published: 1,
        updated: None,
    };
    let id = there.upsert_object(&doc, ObjectKind::Post, 1).unwrap();
    assert!(matches!(handle(&mut there, &sent, &"{}".to_string(), 11), Ok(Receipt::Applied(_))));
    assert_eq!(there.reaction(id, &alice.uri), Some(1));

    let undo = undo_activity(the_like(), "https://here.example/a/2".to_string(), 12);
    assert_eq!(undo.id, "https://here.example/a/2");
    assert!(matches!(undo.kind, ActivityKind::Known(ValidTypes::Undo)));
    assert_eq!(undo.actor, alice.uri);
    assert_eq!(undo.cc, vec![followers.clone()]);
    assert!(matches!(handle(&mut there, &undo, &"{}".to_string(), 13), Ok(Receipt::Applied(_))));
    assert_eq!(there.reaction(id, &alice.uri), None);
}
