use lemmy_federation::apub::dispatch::{dispatch, handle, mentions_told, receive_announce};
use lemmy_federation::apub::fetcher::{
    check_is_apub_id_valid, resolve, ActorDoc, FederationConfig, Fetched, ResolveError,
};
use lemmy_federation::apub::handlers::{
    comment_mentions, receive_create, receive_delete, receive_dislike, receive_like,
    receive_remove, receive_undo, receive_update, HandlerError, Notification, Receipt,
};
use lemmy_federation::apub::inbox::{
    shared_inbox, wanted_object, FetchedObject, InboxRequest, InboxResponse,
};
use lemmy_federation::apub::model::{
    Activity, ActivityBody, ActivityKind, ObjectDoc, ObjectKind, ValidTypes,
};
use lemmy_federation::apub::origin::check_same_origin;
use lemmy_federation::apub::signature::{
    build_signing_string, check_covers, delivery_request, digest_header, parse_signature,
    sign_request, signed_headers, signed_request, verify, verify_with, write_signature, Header, Signature, SignedRequest,
    VerificationError,
};
use lemmy_federation::apub::store::Store;
use lemmy_federation::text::{split_list, split_once, trim_matches};
use lemmy_federation::utils::{generate_actor_keypair, Keypair};
use lemmy_federation::websocket::UserOperation;

const ALICE: &str = "https://a.example/u/alice";
const BOB: &str = "https://b.example/u/bob";
const NOTE: &str = "https://a.example/note/1";

fn config() -> FederationConfig {
    FederationConfig {
        hostname: "b.example".to_string(),
        allowed_instances: vec![],
        blocked_instances: vec!["evil.example".to_string()],
        refresh_window: 3600,
        max_attempts: 3,
        backoff_base: 60,
        required_headers: vec!["(request-target)".to_string(), "host".to_string()],
    }
}

fn note(id: &str, author: &str, content: &str) -> ObjectDoc {
    ObjectDoc {
        id: id.to_string(),
        kind: "Note".to_string(),
        attributed_to: author.to_string(),
        parent: Some("https://a.example/post/7".to_string()),
        to: None,
        content: content.to_string(),
        published: 100,
        updated: None,
    }
}

fn activity(id: &str, kind: &str, actor: &str, updated: i64, body: ActivityBody) -> Activity {
    Activity {
        id: id.to_string(),
        kind: ActivityKind::from_name(kind),
        actor: actor.to_string(),
        to: vec!["https://www.w3.org/ns/activitystreams#Public".to_string()],
        cc: vec!["https://a.example/c/main/followers".to_string()],
        updated,
        body,
    }
}

fn create_note(activity_id: &str, actor: &str, note_id: &str, content: &str, at: i64) -> Activity {
    activity(activity_id, "Create", actor, at, ActivityBody::Object(note(note_id, actor, content)))
}

fn update_note(activity_id: &str, actor: &str, note_id: &str, content: &str, at: i64) -> Activity {
    activity(activity_id, "Update", actor, at, ActivityBody::Object(note(note_id, actor, content)))
}

fn like(activity_id: &str, actor: &str, object: &str) -> Activity {
    activity(activity_id, "Like", actor, 200, ActivityBody::Link(object.to_string()))
}

fn dislike(activity_id: &str, actor: &str, object: &str) -> Activity {
    activity(activity_id, "Dislike", actor, 200, ActivityBody::Link(object.to_string()))
}

fn undo(activity_id: &str, actor: &str, inner: Activity) -> Activity {
    activity(activity_id, "Undo", actor, 300, ActivityBody::Activity(Box::new(inner)))
}

fn store_with_note() -> (Store, u64) {
    let mut store = Store::new();
    let receipt = receive_create(&mut store, &create_note("https://a.example/a/1", ALICE, NOTE, "hello", 100));
    match receipt {
        Ok(Receipt::Applied(n)) => (store, n.object_id),
        other => panic!("create was not applied: {:?}", other),
    }
}

fn payload() -> String {
    "{}".to_string()
}

// ----- names -----

#[test]
fn kinds_are_read_from_their_names() {
    assert!(matches!(ActivityKind::from_name("Create"), ActivityKind::Known(ValidTypes::Create)));
    assert!(matches!(ActivityKind::from_name("Announce"), ActivityKind::Known(ValidTypes::Announce)));
    match ActivityKind::from_name("Flag") {
        ActivityKind::Unrecognized(name) => assert_eq!(name, "Flag"),
        other => panic!("unexpected kind {:?}", other),
    }
    assert_eq!(ActivityKind::from_name("Undo").name(), "Undo");
    assert_eq!(ActivityKind::from_name("Flag").name(), "Flag");
    assert_eq!(ValidTypes::Dislike.name(), "Dislike");
    assert_eq!(ObjectKind::from_name(&"Page".to_string()), Some(ObjectKind::Post));
    assert_eq!(ObjectKind::from_name(&"Note".to_string()), Some(ObjectKind::Comment));
    assert_eq!(ObjectKind::from_name(&"Group".to_string()), Some(ObjectKind::Community));
    assert_eq!(ObjectKind::from_name(&"Person".to_string()), Some(ObjectKind::Person));
    assert_eq!(ObjectKind::from_name(&"Video".to_string()), None);
}

// ----- same origin -----

#[test]
fn same_origin_compares_domains() {
    assert!(check_same_origin(ALICE, NOTE));
    assert!(check_same_origin("https://a.example/x", "http://a.example:8080/y"));
    assert!(!check_same_origin(ALICE, BOB));
    assert!(!check_same_origin("not a uri", "not a uri"));
    assert!(!check_same_origin("https://127.0.0.1/u/a", "https://127.0.0.1/n/1"));
}

#[test]
fn create_from_another_domain_is_refused_without_effect() {
    let mut store = Store::new();
    let spoof = create_note("https://b.example/a/1", BOB, NOTE, "spoofed", 100);
    assert_eq!(receive_create(&mut store, &spoof), Err(HandlerError::OriginMismatch));
    assert_eq!(store.object_count(), 0);
    assert_eq!(store.ledger_len(), 0);

    let misattributed = activity(
        "https://a.example/a/2",
        "Create",
        ALICE,
        100,
        ActivityBody::Object(note(NOTE, BOB, "not hers")),
    );
    assert_eq!(receive_create(&mut store, &misattributed), Err(HandlerError::OriginMismatch));
    assert_eq!(store.object_count(), 0);
}

#[test]
fn update_and_delete_from_another_domain_are_refused() {
    let (mut store, _) = store_with_note();
    let spoof = update_note("https://b.example/a/2", BOB, NOTE, "defaced", 500);
    assert_eq!(receive_update(&mut store, &spoof), Err(HandlerError::OriginMismatch));
    let delete = activity("https://b.example/a/3", "Delete", BOB, 500, ActivityBody::Link(NOTE.to_string()));
    assert_eq!(receive_delete(&mut store, &delete), Err(HandlerError::OriginMismatch));
    let stored = store.object(NOTE).unwrap();
    assert_eq!(stored.content, "hello");
    assert!(!stored.deleted);
}

// ----- create, update -----

#[test]
fn create_stores_the_object_once() {
    let (mut store, id) = store_with_note();
    assert_eq!(store.object_count(), 1);
    let stored = store.object(NOTE).unwrap();
    assert_eq!(stored.id, id);
    assert_eq!(stored.ap_id, NOTE);
    assert_eq!(stored.kind, ObjectKind::Comment);
    assert_eq!(stored.owner, ALICE);
    assert_eq!(stored.parent, Some("https://a.example/post/7".to_string()));
    assert_eq!(stored.content, "hello");
    assert_eq!(stored.updated, 100);
    assert!(!stored.removed && !stored.deleted && !stored.locked && !stored.local);

    let again = receive_create(&mut store, &create_note("https://a.example/a/1", ALICE, NOTE, "hello", 100));
    assert_eq!(
        again,
        Ok(Receipt::Applied(Notification { op: UserOperation::CreateComment, object_id: id }))
    );
    assert_eq!(store.object_count(), 1);
    assert_eq!(store.object_id(NOTE), Some(id));
}

#[test]
fn create_of_a_post_reports_a_post() {
    let mut store = Store::new();
    let mut doc = note("https://a.example/post/7", ALICE, "a link");
    doc.kind = "Page".to_string();
    let create = activity("https://a.example/a/9", "Create", ALICE, 100, ActivityBody::Object(doc));
    assert_eq!(
        receive_create(&mut store, &create),
        Ok(Receipt::Applied(Notification { op: UserOperation::CreatePost, object_id: 1 }))
    );
    assert_eq!(store.object("https://a.example/post/7").unwrap().kind, ObjectKind::Post);
}

#[test]
fn create_of_an_unknown_object_type_is_refused() {
    let mut store = Store::new();
    let mut doc = note(NOTE, ALICE, "a film");
    doc.kind = "Video".to_string();
    let create = activity("https://a.example/a/9", "Create", ALICE, 100, ActivityBody::Object(doc));
    assert_eq!(receive_create(&mut store, &create), Err(HandlerError::UnknownObjectType));
    let by_link = activity("https://a.example/a/9", "Create", ALICE, 100, ActivityBody::Link(NOTE.to_string()));
    assert_eq!(receive_create(&mut store, &by_link), Err(HandlerError::UnknownObjectType));
    assert_eq!(store.object_count(), 0);
}

#[test]
fn profiles_are_objects_too() {
    let mut store = Store::new();
    let community = "https://a.example/c/main";
    let mut doc = note(community, community, "about this community");
    doc.kind = "Group".to_string();
    doc.parent = None;
    let create = activity("https://a.example/a/20", "Create", community, 100, ActivityBody::Object(doc));
    assert_eq!(
        receive_create(&mut store, &create),
        Ok(Receipt::Applied(Notification { op: UserOperation::CreateCommunity, object_id: 1 }))
    );
    assert_eq!(store.object(community).unwrap().kind, ObjectKind::Community);

    let remove = activity(
        "https://a.example/a/21",
        "Remove",
        "https://a.example/u/admin",
        200,
        ActivityBody::Link(community.to_string()),
    );
    assert_eq!(
        receive_remove(&mut store, &remove),
        Ok(Receipt::Applied(Notification { op: UserOperation::EditCommunity, object_id: 1 }))
    );
    assert!(store.object(community).unwrap().removed);
    // Nobody votes on a community.
    assert_eq!(
        receive_like(&mut store, &like("https://b.example/a/22", BOB, community)),
        Err(HandlerError::UnknownObjectType)
    );

    let mut person = note(ALICE, ALICE, "about me");
    person.kind = "Person".to_string();
    let update = activity("https://a.example/a/23", "Update", ALICE, 100, ActivityBody::Object(person));
    assert_eq!(
        receive_update(&mut store, &update),
        Ok(Receipt::Applied(Notification { op: UserOperation::SaveUserSettings, object_id: 2 }))
    );
    // No moderator removes a person.
    let remove_person = activity(
        "https://a.example/a/24",
        "Remove",
        "https://a.example/u/admin",
        200,
        ActivityBody::Link(ALICE.to_string()),
    );
    assert_eq!(receive_remove(&mut store, &remove_person), Err(HandlerError::UnknownObjectType));
}

#[test]
fn a_store_out_of_keys_fails_the_write() {
    let mut store = Store::with_first_key(u64::MAX - 1);
    assert!(matches!(
        receive_create(&mut store, &create_note("https://a.example/a/1", ALICE, NOTE, "hello", 100)),
        Ok(Receipt::Applied(_))
    ));
    let second = create_note("https://a.example/a/2", ALICE, "https://a.example/note/2", "more", 100);
    assert_eq!(receive_create(&mut store, &second), Err(HandlerError::StorageFailure));
    assert_eq!(
        receive_update(&mut store, &update_note("https://a.example/a/3", ALICE, "https://a.example/note/2", "more", 100)),
        Err(HandlerError::StorageFailure)
    );
    assert_eq!(store.object_count(), 1);
    // What is stored can still be written.
    assert!(matches!(
        receive_update(&mut store, &update_note("https://a.example/a/4", ALICE, NOTE, "edited", 200)),
        Ok(Receipt::Applied(_))
    ));
    assert_eq!(store.object(NOTE).unwrap().content, "edited");
}

#[test]
fn later_update_wins_in_either_order() {
    let early = || update_note("https://a.example/a/2", ALICE, NOTE, "first edit", 200);
    let late = || update_note("https://a.example/a/3", ALICE, NOTE, "second edit", 300);

    let (mut in_order, id) = store_with_note();
    assert_eq!(
        receive_update(&mut in_order, &early()),
        Ok(Receipt::Applied(Notification { op: UserOperation::EditComment, object_id: id }))
    );
    assert!(matches!(receive_update(&mut in_order, &late()), Ok(Receipt::Applied(_))));

    let (mut reversed, _) = store_with_note();
    assert!(matches!(receive_update(&mut reversed, &late()), Ok(Receipt::Applied(_))));
    assert_eq!(receive_update(&mut reversed, &early()), Ok(Receipt::NoOp));

    for store in [&in_order, &reversed] {
        let stored = store.object(NOTE).unwrap();
        assert_eq!(stored.content, "second edit");
        assert_eq!(stored.updated, 300);
        assert_eq!(stored.id, id);
    }
}

#[test]
fn update_of_an_unknown_object_inserts_it() {
    let mut store = Store::new();
    assert!(matches!(
        receive_update(&mut store, &update_note("https://a.example/a/2", ALICE, NOTE, "edit", 200)),
        Ok(Receipt::Applied(_))
    ));
    assert_eq!(store.object(NOTE).unwrap().content, "edit");
}

// ----- delete, remove -----

#[test]
fn delete_flags_and_keeps_content() {
    let (mut store, id) = store_with_note();
    let delete = activity("https://a.example/a/4", "Delete", ALICE, 400, ActivityBody::Link(NOTE.to_string()));
    assert_eq!(
        receive_delete(&mut store, &delete),
        Ok(Receipt::Applied(Notification { op: UserOperation::EditComment, object_id: id }))
    );
    let stored = store.object(NOTE).unwrap();
    assert!(stored.deleted);
    assert!(!stored.removed);
    assert_eq!(stored.content, "hello");
    assert_eq!(stored.updated, 400);
    assert_eq!(store.object_count(), 1);

    let unknown = activity(
        "https://a.example/a/5",
        "Delete",
        ALICE,
        400,
        ActivityBody::Link("https://a.example/note/404".to_string()),
    );
    assert_eq!(receive_delete(&mut store, &unknown), Ok(Receipt::NoOp));
}

#[test]
fn remove_is_for_moderators_of_the_community() {
    let (mut store, id) = store_with_note();
    let mut foreign = activity("https://b.example/a/6", "Remove", BOB, 400, ActivityBody::Link(NOTE.to_string()));
    assert_eq!(receive_remove(&mut store, &foreign), Err(HandlerError::OriginMismatch));
    foreign.cc = vec![];
    assert_eq!(receive_remove(&mut store, &foreign), Err(HandlerError::OriginMismatch));
    assert!(!store.object(NOTE).unwrap().removed);

    let moderator = activity(
        "https://a.example/a/6",
        "Remove",
        "https://a.example/u/mod",
        400,
        ActivityBody::Link(NOTE.to_string()),
    );
    assert_eq!(
        receive_remove(&mut store, &moderator),
        Ok(Receipt::Applied(Notification { op: UserOperation::EditComment, object_id: id }))
    );
    let stored = store.object(NOTE).unwrap();
    assert!(stored.removed);
    assert_eq!(stored.content, "hello");
}

// ----- votes and undo -----

#[test]
fn two_likes_make_one_reaction() {
    let (mut store, id) = store_with_note();
    assert_eq!(
        receive_like(&mut store, &like("https://b.example/a/1", BOB, NOTE)),
        Ok(Receipt::Applied(Notification { op: UserOperation::CreateCommentLike, object_id: id }))
    );
    assert!(matches!(
        receive_like(&mut store, &like("https://b.example/a/2", BOB, NOTE)),
        Ok(Receipt::Applied(_))
    ));
    assert_eq!(store.reaction_count(), 1);
    assert_eq!(store.reaction(id, BOB), Some(1));

    assert!(matches!(
        receive_dislike(&mut store, &dislike("https://b.example/a/3", BOB, NOTE)),
        Ok(Receipt::Applied(_))
    ));
    assert_eq!(store.reaction_count(), 1);
    assert_eq!(store.reaction(id, BOB), Some(-1));

    assert!(matches!(
        receive_like(&mut store, &like("https://a.example/a/7", ALICE, NOTE)),
        Ok(Receipt::Applied(_))
    ));
    assert_eq!(store.reaction_count(), 2);
    assert_eq!(store.reaction(id, ALICE), Some(1));
}

#[test]
fn like_of_an_unknown_object_is_refused() {
    let mut store = Store::new();
    assert_eq!(
        receive_like(&mut store, &like("https://b.example/a/1", BOB, NOTE)),
        Err(HandlerError::ObjectNotFound)
    );
    assert_eq!(store.reaction_count(), 0);
}

#[test]
fn undo_takes_a_like_back() {
    let (mut store, id) = store_with_note();
    let the_like = || like("https://b.example/a/1", BOB, NOTE);
    assert!(matches!(handle(&mut store, &the_like(), &payload(), 10), Ok(Receipt::Applied(_))));
    assert_eq!(store.reaction(id, BOB), Some(1));
    let the_undo = undo("https://b.example/a/2", BOB, the_like());
    assert_eq!(
        handle(&mut store, &the_undo, &payload(), 11),
        Ok(Receipt::Applied(Notification { op: UserOperation::CreateCommentLike, object_id: id }))
    );
    assert_eq!(store.reaction(id, BOB), None);
    assert_eq!(store.reaction_count(), 0);
}

#[test]
fn undo_of_an_unseen_activity_changes_nothing() {
    let (mut store, id) = store_with_note();
    assert!(matches!(
        receive_like(&mut store, &like("https://b.example/a/1", BOB, NOTE)),
        Ok(Receipt::Applied(_))
    ));
    // The like was applied but never recorded: to the ledger it is unseen.
    let the_undo = undo("https://b.example/a/2", BOB, like("https://b.example/a/1", BOB, NOTE));
    assert_eq!(receive_undo(&mut store, &the_undo), Ok(Receipt::NoOp));
    assert_eq!(store.reaction(id, BOB), Some(1));
    assert_eq!(store.object_count(), 1);
}

#[test]
fn undo_of_an_unseen_activity_by_another_actor_changes_nothing() {
    let (mut store, _) = store_with_note();
    let the_undo = undo("https://a.example/a/2", ALICE, like("https://b.example/a/1", BOB, NOTE));
    assert_eq!(receive_undo(&mut store, &the_undo), Ok(Receipt::NoOp));
    assert_eq!(store.object_count(), 1);
    assert_eq!(store.reaction_count(), 0);
}

#[test]
fn undo_by_another_actor_is_refused() {
    let (mut store, id) = store_with_note();
    let the_like = || like("https://b.example/a/1", BOB, NOTE);
    assert!(handle(&mut store, &the_like(), &payload(), 10).is_ok());
    let the_undo = undo("https://a.example/a/2", ALICE, the_like());
    assert_eq!(receive_undo(&mut store, &the_undo), Err(HandlerError::OriginMismatch));
    assert_eq!(store.reaction(id, BOB), Some(1));
}

#[test]
fn undo_clears_a_delete() {
    let (mut store, _) = store_with_note();
    let the_delete = || activity("https://a.example/a/4", "Delete", ALICE, 400, ActivityBody::Link(NOTE.to_string()));
    assert!(handle(&mut store, &the_delete(), &payload(), 10).is_ok());
    assert!(store.object(NOTE).unwrap().deleted);
    let the_undo = undo("https://a.example/a/5", ALICE, the_delete());
    assert!(matches!(handle(&mut store, &the_undo, &payload(), 11), Ok(Receipt::Applied(_))));
    assert!(!store.object(NOTE).unwrap().deleted);
    assert_eq!(store.object(NOTE).unwrap().content, "hello");
}

// ----- dispatch -----

#[test]
fn unknown_type_is_acknowledged_without_effect() {
    let (mut store, _) = store_with_note();
    let flag = activity("https://b.example/a/9", "Flag", BOB, 100, ActivityBody::Link(NOTE.to_string()));
    assert_eq!(dispatch(&mut store, &flag), Ok(Receipt::NotImplemented));
    assert_eq!(store.object_count(), 1);
    assert_eq!(store.reaction_count(), 0);
    assert_eq!(store.ledger_len(), 0);
    assert!(store.object(NOTE).unwrap().content == "hello");
}

#[test]
fn handlers_are_idempotent() {
    let (mut store, id) = store_with_note();
    for _ in 0..2 {
        assert!(dispatch(&mut store, &like("https://b.example/a/1", BOB, NOTE)).is_ok());
        assert!(dispatch(&mut store, &update_note("https://a.example/a/2", ALICE, NOTE, "edited", 200)).is_ok());
        assert_eq!(store.object_count(), 1);
        assert_eq!(store.reaction_count(), 1);
        assert_eq!(store.reaction(id, BOB), Some(1));
        assert_eq!(store.object(NOTE).unwrap().content, "edited");
    }
}

#[test]
fn announce_hands_the_relayed_activity_to_its_handler() {
    let mut store = Store::new();
    let inner = || create_note("https://a.example/a/1", ALICE, NOTE, "hello", 100);
    let announce = |id: &str| {
        activity(id, "Announce", "https://c.example/c/main", 100, ActivityBody::Activity(Box::new(inner())))
    };
    let mut direct = Store::new();
    let expected = receive_create(&mut direct, &inner());
    assert_eq!(receive_announce(&mut store, &announce("https://c.example/a/1")), expected);
    assert_eq!(store.object_count(), 1);
    assert_eq!(store.object(NOTE).unwrap().content, "hello");
    // The handler writes nothing on the ledger.
    assert_eq!(store.ledger_len(), 0);
    // Relayed again, the activity goes to its handler again.
    assert!(matches!(dispatch(&mut store, &announce("https://c.example/a/2")), Ok(Receipt::Applied(_))));
    assert_eq!(store.object_count(), 1);

    // A relayed relay is not unwrapped, an unknown type is acknowledged; nothing changes.
    let nested = activity(
        "https://c.example/a/3",
        "Announce",
        "https://c.example/c/main",
        100,
        ActivityBody::Activity(Box::new(announce("https://d.example/a/1"))),
    );
    assert_eq!(dispatch(&mut store, &nested), Ok(Receipt::NotImplemented));
    let flag = activity("https://b.example/a/9", "Flag", BOB, 100, ActivityBody::Link(NOTE.to_string()));
    let relayed_flag = activity(
        "https://c.example/a/5",
        "Announce",
        "https://c.example/c/main",
        100,
        ActivityBody::Activity(Box::new(flag)),
    );
    assert_eq!(receive_announce(&mut store, &relayed_flag), Ok(Receipt::NotImplemented));
    assert_eq!(store.object_count(), 1);
    assert_eq!(store.ledger_len(), 0);

    // What relays no activity has no handler; what is no Announce is
    // turned down.
    let relayed_uri = activity(
        "https://c.example/a/4",
        "Announce",
        "https://c.example/c/main",
        100,
        ActivityBody::Link(NOTE.to_string()),
    );
    assert_eq!(dispatch(&mut store, &relayed_uri), Ok(Receipt::NotImplemented));
    assert_eq!(receive_announce(&mut store, &relayed_uri), Ok(Receipt::NotImplemented));
    let relayed_note = activity(
        "https://c.example/a/7",
        "Announce",
        "https://c.example/c/main",
        100,
        ActivityBody::Object(note("https://a.example/note/2", ALICE, "relayed as it is")),
    );
    assert_eq!(dispatch(&mut store, &relayed_note), Ok(Receipt::NotImplemented));
    assert_eq!(receive_announce(&mut store, &relayed_note), Ok(Receipt::NotImplemented));
    assert!(store.object("https://a.example/note/2").is_none());
    let not_an_announce = undo("https://c.example/a/6", "https://c.example/c/main", inner());
    assert_eq!(receive_announce(&mut store, &not_an_announce), Err(HandlerError::UnknownObjectType));
    assert_eq!(store.object_count(), 1);
}

#[test]
fn relayed_activities_through_the_inbox() {
    let key = generate_actor_keypair().unwrap();
    let cfg = config();
    let mut store = Store::new();
    let fetched = Fetched::Actor(alice_doc(&key));
    let flag = activity("https://b.example/a/9", "Flag", BOB, 100, ActivityBody::Link(NOTE.to_string()));
    let relayed_flag = activity("https://a.example/a/30", "Announce", ALICE, 100, ActivityBody::Activity(Box::new(flag)));
    let outcome = shared_inbox(&mut store, &cfg, &delivery(&key, relayed_flag), 0, Some(&fetched), None);
    assert_eq!(outcome.response, InboxResponse::NotImplemented);
    assert_eq!(store.object_count(), 0);
    // Both have been seen: what was delivered and what it relays.
    assert_eq!(store.ledger_len(), 2);
    assert!(store.is_known(&"https://a.example/a/30".to_string()));
    assert!(store.is_known(&"https://b.example/a/9".to_string()));

    let relayed_uri = activity("https://a.example/a/31", "Announce", ALICE, 100, ActivityBody::Link(NOTE.to_string()));
    let outcome = shared_inbox(&mut store, &cfg, &delivery(&key, relayed_uri), 0, Some(&fetched), None);
    assert_eq!(outcome.response, InboxResponse::NotImplemented);
    assert_eq!(outcome.error, None);
    assert_eq!(store.ledger_len(), 3);
}

#[test]
fn a_relayed_undo_takes_a_relayed_like_back() {
    let relay = "https://c.example/c/main";
    let relayed = |id: &str, inner: Activity| {
        activity(id, "Announce", relay, 100, ActivityBody::Activity(Box::new(inner)))
    };
    let the_like = || like("https://a.example/a/2", ALICE, NOTE);
    let (mut store, object_id) = store_with_note();
    let liked = handle(&mut store, &relayed("https://c.example/a/2", the_like()), &payload(), 10);
    assert!(matches!(liked, Ok(Receipt::Applied(_))));
    assert_eq!(store.reaction(object_id, ALICE), Some(1));
    assert!(store.is_known(&"https://c.example/a/2".to_string()));
    assert!(store.is_known(&"https://a.example/a/2".to_string()));
    let undone = handle(
        &mut store,
        &relayed("https://c.example/a/3", undo("https://a.example/a/3", ALICE, the_like())),
        &payload(),
        20,
    );
    assert!(matches!(undone, Ok(Receipt::Applied(_))));
    assert_eq!(store.reaction(object_id, ALICE), None);
    assert_eq!(store.reaction_count(), 0);

    // A like delivered directly is taken back by a relayed undo, and the
    // other way round.
    let (mut store, object_id) = store_with_note();
    assert!(matches!(handle(&mut store, &the_like(), &payload(), 10), Ok(Receipt::Applied(_))));
    let undone = handle(
        &mut store,
        &relayed("https://c.example/a/3", undo("https://a.example/a/3", ALICE, the_like())),
        &payload(),
        20,
    );
    assert!(matches!(undone, Ok(Receipt::Applied(_))));
    assert_eq!(store.reaction(object_id, ALICE), None);
    let (mut store, object_id) = store_with_note();
    let liked = handle(&mut store, &relayed("https://c.example/a/2", the_like()), &payload(), 10);
    assert!(matches!(liked, Ok(Receipt::Applied(_))));
    let undone = handle(&mut store, &undo("https://a.example/a/3", ALICE, the_like()), &payload(), 20);
    assert!(matches!(undone, Ok(Receipt::Applied(_))));
    assert_eq!(store.reaction(object_id, ALICE), None);
}

#[test]
fn mentions_in_a_created_comment_are_told_to_local_users() {
    let text = "hello @bob@b.example and @carol@c.example, and @dave@b.example too";
    let told = |a: &Activity| -> Vec<String> {
        mentions_told(a, "b.example").iter().map(|m| m.full_name()).collect()
    };
    let create = create_note("https://a.example/a/1", ALICE, NOTE, text, 100);
    assert_eq!(told(&create), vec!["@bob@b.example".to_string(), "@dave@b.example".to_string()]);
    let relayed = activity(
        "https://c.example/a/1",
        "Announce",
        "https://c.example/c/main",
        100,
        ActivityBody::Activity(Box::new(create_note("https://a.example/a/1", ALICE, NOTE, text, 100))),
    );
    assert_eq!(told(&relayed), vec!["@bob@b.example".to_string(), "@dave@b.example".to_string()]);
    assert!(mentions_told(&create, "d.example").is_empty());

    // Only a comment that is created tells anybody.
    let update = update_note("https://a.example/a/2", ALICE, NOTE, text, 100);
    assert!(mentions_told(&update, "b.example").is_empty());
    let mut page = note(NOTE, ALICE, text);
    page.kind = "Page".to_string();
    assert!(comment_mentions(&page, "b.example").is_empty());
    let post = activity("https://a.example/a/3", "Create", ALICE, 100, ActivityBody::Object(page));
    assert!(mentions_told(&post, "b.example").is_empty());
    assert!(mentions_told(&like("https://a.example/a/4", ALICE, NOTE), "b.example").is_empty());
    let names: Vec<String> =
        comment_mentions(&note(NOTE, ALICE, text), "c.example").iter().map(|m| m.full_name()).collect();
    assert_eq!(names, vec!["@carol@c.example".to_string()]);
}

#[test]
fn deliveries_are_signed_over_target_host_date_and_digest() {
    assert_eq!(
        signed_headers(),
        vec!["(request-target)".to_string(), "host".to_string(), "date".to_string(), "digest".to_string()]
    );
    let request = delivery_request(
        "/inbox".to_string(),
        "b.example".to_string(),
        "Tue, 07 Jun 2024 20:51:35 GMT".to_string(),
        "{\"a\":1}".to_string(),
    );
    assert_eq!(request.method, "post");
    assert_eq!(request.path, "/inbox");
    assert_eq!(request.body, "{\"a\":1}");
    assert!(request.signature.is_none());
    let headers: Vec<(String, String)> =
        request.headers.iter().map(|h| (h.name.clone(), h.value.clone())).collect();
    assert_eq!(
        headers,
        vec![
            ("host".to_string(), "b.example".to_string()),
            ("date".to_string(), "Tue, 07 Jun 2024 20:51:35 GMT".to_string()),
            ("digest".to_string(), digest_header("{\"a\":1}")),
        ]
    );
    assert!(check_covers(&signed_headers(), &signed_headers()));

    // Signed by the sender, such a request passes at a server that asks
    // for all four headers.
    let key = generate_actor_keypair().unwrap();
    let mut signed = delivery_request(
        "/inbox".to_string(),
        "b.example".to_string(),
        "Tue, 07 Jun 2024 20:51:35 GMT".to_string(),
        "{\"a\":1}".to_string(),
    );
    signed.signature = sign_request(&signed, &ALICE.to_string(), &key.private_key, &signed_headers());
    assert!(signed.signature.is_some());
    let mut store = Store::new();
    let fetched = Fetched::Actor(alice_doc(&key));
    let actor = resolve(&mut store, &config(), &ALICE.to_string(), 0, Some(&fetched)).unwrap().unwrap();
    assert_eq!(verify(&signed, &actor, &signed_headers()), Ok(()));
    signed.body = "{\"a\":2}".to_string();
    assert!(verify(&signed, &actor, &signed_headers()).is_err());
}

// ----- actor cache -----

fn alice_doc(key: &Keypair) -> ActorDoc {
    ActorDoc {
        id: ALICE.to_string(),
        name: "alice".to_string(),
        public_key: key.public_key.clone(),
        inbox_url: "https://a.example/u/alice/inbox".to_string(),
        shared_inbox_url: Some("https://a.example/inbox".to_string()),
    }
}

#[test]
fn resolve_asks_then_caches_then_expires() {
    let key = generate_actor_keypair().unwrap();
    let mut store = Store::new();
    let cfg = config();
    let uri = ALICE.to_string();
    assert!(matches!(resolve(&mut store, &cfg, &uri, 1000, None), Ok(None)));
    assert_eq!(store.actor_count(), 0);

    let fetched = Fetched::Actor(alice_doc(&key));
    let actor = resolve(&mut store, &cfg, &uri, 1000, Some(&fetched)).unwrap().unwrap();
    assert_eq!(actor.uri, ALICE);
    assert_eq!(actor.name, "alice");
    assert_eq!(actor.last_refreshed_at, 1000);
    assert!(!actor.local);
    assert_eq!(store.actor_count(), 1);

    let cached = resolve(&mut store, &cfg, &uri, 1000 + 3599, None).unwrap().unwrap();
    assert_eq!(cached.public_key, key.public_key);
    assert!(matches!(resolve(&mut store, &cfg, &uri, 1000 + 3600, None), Ok(None)));

    let mut renamed = alice_doc(&key);
    renamed.name = "alice2".to_string();
    let refreshed = resolve(&mut store, &cfg, &uri, 5000, Some(&Fetched::Actor(renamed))).unwrap().unwrap();
    assert_eq!(refreshed.name, "alice2");
    assert_eq!(refreshed.last_refreshed_at, 5000);
    assert_eq!(store.actor_count(), 1);
}

#[test]
fn resolve_errors() {
    let key = generate_actor_keypair().unwrap();
    let mut store = Store::new();
    let cfg = config();
    let uri = ALICE.to_string();
    assert!(matches!(
        resolve(&mut store, &cfg, &"no uri".to_string(), 0, None),
        Err(ResolveError::InvalidActor)
    ));
    assert!(matches!(
        resolve(&mut store, &cfg, &"https://evil.example/u/eve".to_string(), 0, None),
        Err(ResolveError::InvalidActor)
    ));
    assert!(matches!(
        resolve(&mut store, &cfg, &uri, 0, Some(&Fetched::Failed)),
        Err(ResolveError::FetchFailed)
    ));
    assert!(matches!(
        resolve(&mut store, &cfg, &uri, 0, Some(&Fetched::Malformed)),
        Err(ResolveError::MalformedActor)
    ));
    let mut other = alice_doc(&key);
    other.id = "https://a.example/u/mallory".to_string();
    assert!(matches!(
        resolve(&mut store, &cfg, &uri, 0, Some(&Fetched::Actor(other))),
        Err(ResolveError::MalformedActor)
    ));
    let mut keyless = alice_doc(&key);
    keyless.public_key = String::new();
    assert!(matches!(
        resolve(&mut store, &cfg, &uri, 0, Some(&Fetched::Actor(keyless))),
        Err(ResolveError::MalformedActor)
    ));
    assert_eq!(store.actor_count(), 0);
}

#[test]
fn local_actors_are_not_refreshed_from_the_network() {
    let key = generate_actor_keypair().unwrap();
    let mut store = Store::new();
    let cfg = config();
    let uri = "https://b.example/u/bob".to_string();
    store.upsert_actor(lemmy_federation::apub::model::Actor {
        uri: uri.clone(),
        name: "bob".to_string(),
        public_key: "bob's key".to_string(),
        private_key: Some("bob's secret".to_string()),
        inbox_url: "https://b.example/u/bob/inbox".to_string(),
        shared_inbox_url: None,
        local: true,
        last_refreshed_at: 0,
    });
    let mut doc = alice_doc(&key);
    doc.id = uri.clone();
    let resolved = resolve(&mut store, &cfg, &uri, 1_000_000, Some(&Fetched::Actor(doc))).unwrap().unwrap();
    assert_eq!(resolved.public_key, "bob's key");
    assert_eq!(resolved.private_key, Some("bob's secret".to_string()));
    assert!(resolved.local);
    let cached = resolve(&mut store, &cfg, &uri, 2_000_000, None).unwrap().unwrap();
    assert_eq!(cached.name, "bob");
    assert_eq!(store.actor_count(), 1);
}

#[test]
fn allow_and_block_lists() {
    let mut cfg = config();
    assert!(check_is_apub_id_valid(&cfg, ALICE));
    assert!(!check_is_apub_id_valid(&cfg, "https://evil.example/u/eve"));
    assert!(!check_is_apub_id_valid(&cfg, "alice"));
    cfg.allowed_instances = vec!["b.example".to_string()];
    assert!(!check_is_apub_id_valid(&cfg, ALICE));
    assert!(check_is_apub_id_valid(&cfg, BOB));
}

// ----- signatures -----

fn unsigned_request() -> SignedRequest {
    SignedRequest {
        method: "post".to_string(),
        path: "/inbox".to_string(),
        headers: vec![
            Header { name: "host".to_string(), value: "b.example".to_string() },
            Header { name: "date".to_string(), value: "Tue, 07 Jun 2024 20:51:35 GMT".to_string() },
        ],
        body: payload(),
        signature: None,
    }
}

fn required() -> Vec<String> {
    config().required_headers
}

fn signed_names() -> Vec<String> {
    vec!["(request-target)".to_string(), "host".to_string(), "date".to_string()]
}

fn request_signed_with(key: &Keypair) -> SignedRequest {
    let mut request = unsigned_request();
    let signature = sign_request(&request, &ALICE.to_string(), &key.private_key, &signed_names());
    assert!(signature.is_some());
    request.signature = signature;
    request
}

#[test]
fn signing_string_has_one_line_per_header() {
    let request = unsigned_request();
    assert_eq!(
        build_signing_string(&request, &signed_names()),
        Some("(request-target): post /inbox\nhost: b.example\ndate: Tue, 07 Jun 2024 20:51:35 GMT".to_string())
    );
    assert_eq!(build_signing_string(&request, &vec!["host".to_string()]), Some("host: b.example".to_string()));
    assert_eq!(build_signing_string(&request, &vec![]), Some(String::new()));
    assert_eq!(build_signing_string(&request, &vec!["host".to_string(), "digest".to_string()]), None);
}

#[test]
fn signature_round_trip() {
    let key = generate_actor_keypair().unwrap();
    let mut store = Store::new();
    let actor = resolve(&mut store, &config(), &ALICE.to_string(), 0, Some(&Fetched::Actor(alice_doc(&key))))
        .unwrap()
        .unwrap();
    let request = request_signed_with(&key);
    let signature = request.signature.as_ref().unwrap();
    assert_eq!(signature.key_id, "https://a.example/u/alice#main-key");
    assert_eq!(signature.headers, signed_names());
    assert_eq!(verify(&request, &actor, &required()), Ok(()));

    let mut tampered = request_signed_with(&key);
    tampered.path = "/other".to_string();
    assert_eq!(verify(&tampered, &actor, &required()), Err(VerificationError::SignatureMismatch));

    assert_eq!(verify(&unsigned_request(), &actor, &required()), Err(VerificationError::MissingSignature));

    let other_key = generate_actor_keypair().unwrap();
    let forged = request_signed_with(&other_key);
    assert_eq!(verify(&forged, &actor, &required()), Err(VerificationError::SignatureMismatch));

    let mut wrong_key_id = request_signed_with(&key);
    wrong_key_id.signature.as_mut().unwrap().key_id = "https://a.example/u/mallory#main-key".to_string();
    assert_eq!(verify(&wrong_key_id, &actor, &required()), Err(VerificationError::UnknownKey));

    let mut not_base64 = request_signed_with(&key);
    not_base64.signature.as_mut().unwrap().signature = "***".to_string();
    assert_eq!(verify(&not_base64, &actor, &required()), Err(VerificationError::SignatureMismatch));

    let mut missing_header = request_signed_with(&key);
    missing_header.headers.pop();
    assert_eq!(verify(&missing_header, &actor, &required()), Err(VerificationError::SignatureMismatch));

    let mut bad_key_actor = actor.duplicate();
    bad_key_actor.public_key = "not a key".to_string();
    assert_eq!(verify(&request, &bad_key_actor, &required()), Err(VerificationError::UnknownKey));
    bad_key_actor.public_key = String::new();
    assert_eq!(verify(&request, &bad_key_actor, &required()), Err(VerificationError::UnknownKey));
}

#[test]
fn verify_with_decides_from_the_key_check() {
    let key = generate_actor_keypair().unwrap();
    let mut store = Store::new();
    let actor = resolve(&mut store, &config(), &ALICE.to_string(), 0, Some(&Fetched::Actor(alice_doc(&key))))
        .unwrap()
        .unwrap();
    let mut request = unsigned_request();
    request.signature = Some(Signature {
        key_id: "https://a.example/u/alice#main-key".to_string(),
        headers: signed_names(),
        signature: "AAAA".to_string(),
    });
    let message = || build_signing_string(&unsigned_request(), &signed_names());
    assert_eq!(verify_with(&request, &actor, &required(), &digest_header(&payload()), message(), Some(vec![0, 0, 0]), Some(Some(true))), Ok(()));
    assert_eq!(
        verify_with(&request, &actor, &required(), &digest_header(&payload()), message(), Some(vec![0, 0, 0]), Some(Some(false))),
        Err(VerificationError::SignatureMismatch)
    );
    assert_eq!(
        verify_with(&request, &actor, &required(), &digest_header(&payload()), message(), Some(vec![0, 0, 0]), None),
        Err(VerificationError::UnknownKey)
    );
    // A check that OpenSSL could not carry out is a mismatch.
    assert_eq!(
        verify_with(&request, &actor, &required(), &digest_header(&payload()), message(), Some(vec![0, 0, 0]), Some(None)),
        Err(VerificationError::SignatureMismatch)
    );
    assert_eq!(
        verify_with(&request, &actor, &required(), &digest_header(&payload()), message(), None, None),
        Err(VerificationError::SignatureMismatch)
    );
    request.signature.as_mut().unwrap().headers = vec![];
    assert_eq!(
        verify_with(&request, &actor, &required(), &digest_header(&payload()), Some(String::new()), Some(vec![0]), Some(Some(true))),
        Err(VerificationError::SignatureMismatch)
    );
}

// ----- the inbox -----

fn delivery(key: &Keypair, activity: Activity) -> InboxRequest {
    InboxRequest { request: request_signed_with(key), activity: Some(activity) }
}

#[test]
fn scenario_create_note_delivered_to_shared_inbox() {
    let key = generate_actor_keypair().unwrap();
    let cfg = config();
    let mut store = Store::new();
    let input = delivery(&key, create_note("https://a.example/a/1", ALICE, NOTE, "hello", 100));

    // The actor is unknown: the caller is asked to fetch it, nothing changes.
    let first = shared_inbox(&mut store, &cfg, &input, 1000, None, None);
    assert_eq!(first.response, InboxResponse::FetchActor);
    assert_eq!(first.response.status(), None);
    assert_eq!(store.actor_count(), 0);
    assert_eq!(store.ledger_len(), 0);

    let fetched = Fetched::Actor(alice_doc(&key));
    let done = shared_inbox(&mut store, &cfg, &input, 1000, Some(&fetched), None);
    assert_eq!(done.response, InboxResponse::Success);
    assert_eq!(done.response.status(), Some(200));
    assert_eq!(done.error, None);
    let id = store.object_id(NOTE).unwrap();
    assert_eq!(done.notification, Some(Notification { op: UserOperation::CreateComment, object_id: id }));
    assert_eq!(store.object_count(), 1);
    let stored = store.object(NOTE).unwrap();
    assert_eq!(stored.ap_id, NOTE);
    assert_eq!(stored.owner, ALICE);
    assert_eq!(store.actor_count(), 1);
    assert_eq!(store.actor(&ALICE.to_string()).unwrap().name, "alice");
    assert_eq!(store.ledger_len(), 1);

    // The sender retries: acknowledged, nothing changes, nobody is told.
    for later in [1001, 90000] {
        let retry = shared_inbox(&mut store, &cfg, &input, later, None, None);
        assert_eq!(retry.response, InboxResponse::Success);
        assert_eq!(retry.notification, None);
        assert_eq!(store.object_count(), 1);
        assert_eq!(store.actor_count(), 1);
        assert_eq!(store.ledger_len(), 1);
    }
}

#[test]
fn inbox_refusals() {
    let key = generate_actor_keypair().unwrap();
    let cfg = config();
    let mut store = Store::new();
    let fetched = Fetched::Actor(alice_doc(&key));

    let unreadable = InboxRequest { request: request_signed_with(&key), activity: None };
    assert_eq!(shared_inbox(&mut store, &cfg, &unreadable, 0, None, None).response, InboxResponse::BadRequest);
    assert_eq!(InboxResponse::BadRequest.status(), Some(400));

    let malformed = delivery(&key, create_note("not a uri", ALICE, NOTE, "hello", 100));
    assert_eq!(shared_inbox(&mut store, &cfg, &malformed, 0, None, None).response, InboxResponse::BadRequest);

    let mut blocked_cfg = config();
    blocked_cfg.blocked_instances.push("a.example".to_string());
    let input = delivery(&key, create_note("https://a.example/a/1", ALICE, NOTE, "hello", 100));
    let blocked = shared_inbox(&mut store, &blocked_cfg, &input, 0, Some(&fetched), None);
    assert_eq!(blocked.response, InboxResponse::Unauthorized);
    assert_eq!(blocked.response.status(), Some(401));

    let unreachable = shared_inbox(&mut store, &cfg, &input, 0, Some(&Fetched::Failed), None);
    assert_eq!(unreachable.response, InboxResponse::BadGateway);
    assert_eq!(unreachable.response.status(), Some(502));
    assert_eq!(
        shared_inbox(&mut store, &cfg, &input, 0, Some(&Fetched::Malformed), None).response,
        InboxResponse::BadGateway
    );

    let mut unsigned = delivery(&key, create_note("https://a.example/a/1", ALICE, NOTE, "hello", 100));
    unsigned.request.signature = None;
    assert_eq!(
        shared_inbox(&mut store, &cfg, &unsigned, 0, Some(&fetched), None).response,
        InboxResponse::Unauthorized
    );

    assert_eq!(store.object_count(), 0);
    assert_eq!(store.ledger_len(), 0);
}

#[test]
fn what_is_on_the_ledger_is_acknowledged_before_anything_else() {
    let key = generate_actor_keypair().unwrap();
    let cfg = config();
    let mut store = Store::new();
    let by_address = "https://127.0.0.1/u/nobody";
    // Unknown id, actor on no domain: the resolver refuses the actor.
    let unknown = delivery(&key, create_note("https://a.example/a/50", by_address, NOTE, "x", 1));
    assert_eq!(shared_inbox(&mut store, &cfg, &unknown, 0, None, None).response, InboxResponse::Unauthorized);
    assert_eq!(store.ledger_len(), 0);
    // The same id on the ledger: acknowledged, whoever is named and whatever is signed.
    assert!(handle(&mut store, &create_note("https://a.example/a/50", ALICE, NOTE, "hello", 100), &payload(), 1).is_ok());
    let mut known = delivery(&key, create_note("https://a.example/a/50", by_address, NOTE, "x", 1));
    known.request.signature = None;
    let outcome = shared_inbox(&mut store, &cfg, &known, 2, None, None);
    assert_eq!(outcome.response, InboxResponse::Success);
    assert_eq!(outcome.notification, None);
    assert_eq!(store.ledger_len(), 1);
    assert_eq!(store.object(NOTE).unwrap().content, "hello");
    // An id that is no URI and not on the ledger is malformed.
    let malformed = delivery(&key, create_note("no uri", by_address, NOTE, "x", 1));
    assert_eq!(shared_inbox(&mut store, &cfg, &malformed, 3, None, None).response, InboxResponse::BadRequest);
}

#[test]
fn stale_key_is_refetched_once() {
    let old_key = generate_actor_keypair().unwrap();
    let new_key = generate_actor_keypair().unwrap();
    let cfg = config();
    let mut store = Store::new();
    // The cache holds the old key.
    resolve(&mut store, &cfg, &ALICE.to_string(), 1000, Some(&Fetched::Actor(alice_doc(&old_key)))).unwrap();

    let input = delivery(&new_key, create_note("https://a.example/a/1", ALICE, NOTE, "hello", 100));
    let first = shared_inbox(&mut store, &cfg, &input, 1001, None, None);
    assert_eq!(first.response, InboxResponse::FetchActor);
    assert_eq!(store.object_count(), 0);

    let second = shared_inbox(&mut store, &cfg, &input, 1001, Some(&Fetched::Actor(alice_doc(&new_key))), None);
    assert_eq!(second.response, InboxResponse::Success);
    assert_eq!(store.object_count(), 1);

    // A signature that fits neither key is refused after the one refetch.
    let forged = delivery(&old_key, create_note("https://a.example/a/2", ALICE, "https://a.example/note/2", "x", 100));
    assert_eq!(shared_inbox(&mut store, &cfg, &forged, 1002, None, None).response, InboxResponse::FetchActor);
    let refused = shared_inbox(&mut store, &cfg, &forged, 1002, Some(&Fetched::Actor(alice_doc(&new_key))), None);
    assert_eq!(refused.response, InboxResponse::Unauthorized);
    assert_eq!(store.object_count(), 1);
    assert_eq!(store.ledger_len(), 1);
}

#[test]
fn inbox_records_even_what_the_handler_refuses() {
    let key = generate_actor_keypair().unwrap();
    let cfg = config();
    let mut store = Store::new();
    let fetched = Fetched::Actor(alice_doc(&key));
    // Alice creates a note that claims to live on another server.
    let spoof = delivery(
        &key,
        activity(
            "https://a.example/a/1",
            "Create",
            ALICE,
            100,
            ActivityBody::Object(note("https://b.example/note/1", ALICE, "spoof")),
        ),
    );
    let outcome = shared_inbox(&mut store, &cfg, &spoof, 0, Some(&fetched), None);
    assert_eq!(outcome.response, InboxResponse::Success);
    assert_eq!(outcome.error, Some(HandlerError::OriginMismatch));
    assert_eq!(outcome.notification, None);
    assert_eq!(store.object_count(), 0);
    assert_eq!(store.ledger_len(), 1);

    let unknown = delivery(
        &key,
        activity("https://a.example/a/2", "Flag", ALICE, 100, ActivityBody::Link(NOTE.to_string())),
    );
    let outcome = shared_inbox(&mut store, &cfg, &unknown, 0, None, None);
    assert_eq!(outcome.response, InboxResponse::NotImplemented);
    assert_eq!(outcome.response.status(), Some(501));
    assert_eq!(store.object_count(), 0);
    assert_eq!(store.ledger_len(), 2);
    assert_eq!(shared_inbox(&mut store, &cfg, &unknown, 1, None, None).response, InboxResponse::Success);
}

#[test]
fn vote_on_an_unknown_object_asks_for_it() {
    let key = generate_actor_keypair().unwrap();
    let cfg = config();
    let mut store = Store::new();
    let fetched = Fetched::Actor(alice_doc(&key));
    let the_like = like("https://a.example/a/5", ALICE, "https://b.example/note/3");
    assert_eq!(wanted_object(&store, &the_like), Some(&"https://b.example/note/3".to_string()));
    let input = delivery(&key, the_like);

    let first = shared_inbox(&mut store, &cfg, &input, 10, Some(&fetched), None);
    assert_eq!(first.response, InboxResponse::FetchObject);
    assert_eq!(first.response.status(), None);
    assert_eq!(store.object_count(), 0);
    assert_eq!(store.ledger_len(), 0);

    let doc = note("https://b.example/note/3", BOB, "by bob");
    let done = shared_inbox(&mut store, &cfg, &input, 10, None, Some(&FetchedObject::Object(doc)));
    assert_eq!(done.response, InboxResponse::Success);
    let id = store.object_id("https://b.example/note/3").unwrap();
    assert_eq!(done.notification, Some(Notification { op: UserOperation::CreateCommentLike, object_id: id }));
    assert_eq!(store.object("https://b.example/note/3").unwrap().owner, BOB);
    assert_eq!(store.reaction(id, ALICE), Some(1));
    assert_eq!(wanted_object(&store, &like("https://a.example/a/6", ALICE, "https://b.example/note/3")), None);

    // A document that cannot be had leaves the vote without an object.
    let lost = delivery(&key, like("https://a.example/a/7", ALICE, "https://b.example/note/404"));
    let outcome = shared_inbox(&mut store, &cfg, &lost, 11, None, Some(&FetchedObject::Unavailable));
    assert_eq!(outcome.response, InboxResponse::Success);
    assert_eq!(outcome.error, Some(HandlerError::ObjectNotFound));
    assert_eq!(store.object_count(), 1);

    // A document for another object, or one attributed across domains, is not taken in.
    let wrong = delivery(&key, like("https://a.example/a/8", ALICE, "https://b.example/note/9"));
    let other = note("https://b.example/note/10", BOB, "another");
    let outcome = shared_inbox(&mut store, &cfg, &wrong, 12, None, Some(&FetchedObject::Object(other)));
    assert_eq!(outcome.error, Some(HandlerError::ObjectNotFound));
    let spoofed = delivery(&key, like("https://a.example/a/9", ALICE, "https://b.example/note/11"));
    let cross = note("https://b.example/note/11", ALICE, "not bob's server");
    let outcome = shared_inbox(&mut store, &cfg, &spoofed, 13, None, Some(&FetchedObject::Object(cross)));
    assert_eq!(outcome.error, Some(HandlerError::ObjectNotFound));
    assert_eq!(store.object_count(), 1);
}

#[test]
fn signature_headers() {
    let sig = parse_signature(
        "keyId=\"https://a.example/u/alice#main-key\",algorithm=\"rsa-sha256\", headers=\"(request-target) host date\",signature=\"AbC+/0==\"",
    )
    .unwrap();
    assert_eq!(sig.key_id, "https://a.example/u/alice#main-key");
    assert_eq!(sig.headers, signed_names());
    assert_eq!(sig.signature, "AbC+/0==");

    // Order does not matter, the first field of a name counts, quotes may be left out.
    let sig = parse_signature("signature=\"one\",headers=host,keyId=k,signature=\"two\"").unwrap();
    assert_eq!(sig.key_id, "k");
    assert_eq!(sig.headers, vec!["host".to_string()]);
    assert_eq!(sig.signature, "one");

    assert!(parse_signature("").is_none());
    assert!(parse_signature("keyId=\"k\",headers=\"host\"").is_none());
    assert!(parse_signature("keyId=\"k\",signature=\"s\"").is_none());
    assert!(parse_signature("headers=\"host\",signature=\"s\"").is_none());
    assert!(parse_signature("keyId,headers,signature").is_none());

    // What is written is what is read.
    let written = write_signature(&sig);
    assert_eq!(written, "keyId=\"k\",algorithm=\"rsa-sha256\",headers=\"host\",signature=\"one\"");
    let again = parse_signature(&written).unwrap();
    assert_eq!((again.key_id, again.headers, again.signature), (sig.key_id, sig.headers, sig.signature));
    let several = Signature { key_id: "https://a.example/u/alice#main-key".to_string(), headers: signed_names(), signature: "AbC+/0==".to_string() };
    let written = write_signature(&several);
    assert_eq!(
        written,
        "keyId=\"https://a.example/u/alice#main-key\",algorithm=\"rsa-sha256\",headers=\"(request-target) host date\",signature=\"AbC+/0==\""
    );
    assert_eq!(parse_signature(&written).unwrap().headers, signed_names());
    let none = Signature { key_id: String::new(), headers: vec![], signature: String::new() };
    assert_eq!(write_signature(&none), "keyId=\"\",algorithm=\"rsa-sha256\",headers=\"\",signature=\"\"");

    assert_eq!(split_once("a=b=c", '='), Some(("a", "b=c")));
    assert_eq!(split_once("=", '='), Some(("", "")));
    assert_eq!(split_once("abc", '='), None);
    assert_eq!(split_once("", '='), None);
    assert_eq!(split_once("é=ö", '='), Some(("é", "ö")));
    assert_eq!(trim_matches("\"\"a\"b\"", '"'), "a\"b");
    assert_eq!(trim_matches("  a ", ' '), "a");
    assert_eq!(trim_matches("aaa", 'a'), "");
    assert_eq!(trim_matches("", 'a'), "");
    assert_eq!(trim_matches("abc", 'x'), "abc");
    for (text, c) in [("xxaxbxx", 'x'), ("x", 'x'), ("ax", 'x'), ("xa", 'x'), ("ééaé", 'é')] {
        assert_eq!(trim_matches(text, c), text.trim_matches(c));
    }
    assert_eq!(split_list("a,b,,c", ','), vec!["a", "b", "", "c"]);
    assert_eq!(split_list("", ','), vec![""]);
    assert_eq!(split_list("abc", ','), vec!["abc"]);
    assert_eq!(split_list(",", ','), vec!["", ""]);
}

#[test]
fn requests_carry_what_their_signature_header_says() {
    let headers = |signature: &str| {
        vec![
            Header { name: "host".to_string(), value: "b.example".to_string() },
            Header { name: "signature".to_string(), value: signature.to_string() },
        ]
    };
    let request = signed_request(
        "post".to_string(),
        "/inbox".to_string(),
        headers("keyId=\"k\",headers=\"(request-target) host\",signature=\"s\""),
        "{}".to_string(),
    );
    assert_eq!(request.body, "{}");
    assert_eq!(request.method, "post");
    assert_eq!(request.path, "/inbox");
    assert_eq!(request.headers.len(), 2);
    let sig = request.signature.unwrap();
    assert_eq!(sig.key_id, "k");
    assert_eq!(sig.headers, vec!["(request-target)".to_string(), "host".to_string()]);
    assert_eq!(sig.signature, "s");
    assert!(signed_request("post".to_string(), "/inbox".to_string(), headers("nonsense"), String::new())
        .signature
        .is_none());
    assert!(signed_request("post".to_string(), "/inbox".to_string(), vec![], String::new()).signature.is_none());
}

#[test]
fn signature_must_cover_the_required_headers() {
    let key = generate_actor_keypair().unwrap();
    let mut store = Store::new();
    let actor = resolve(&mut store, &config(), &ALICE.to_string(), 0, Some(&Fetched::Actor(alice_doc(&key))))
        .unwrap()
        .unwrap();
    let mut request = unsigned_request();
    let only_date = vec!["date".to_string()];
    request.signature = sign_request(&request, &ALICE.to_string(), &key.private_key, &only_date);
    // The signature is good for what it signs.
    assert_eq!(verify(&request, &actor, &only_date), Ok(()));
    assert_eq!(verify(&request, &actor, &vec![]), Ok(()));
    // It does not sign what is asked for.
    assert_eq!(verify(&request, &actor, &required()), Err(VerificationError::SignatureMismatch));

    assert!(check_covers(&signed_names(), &required()));
    assert!(check_covers(&signed_names(), &vec![]));
    assert!(!check_covers(&only_date, &required()));
    assert!(!check_covers(&vec![], &only_date));
}

#[test]
fn a_signed_digest_vouches_for_the_body() {
    let key = generate_actor_keypair().unwrap();
    let mut store = Store::new();
    let actor = resolve(&mut store, &config(), &ALICE.to_string(), 0, Some(&Fetched::Actor(alice_doc(&key))))
        .unwrap()
        .unwrap();
    assert_eq!(digest_header(""), "SHA-256=47DEQpj8HBSa+/TImW+5JCeuQeRkm5NMpJWZG3hSuFU=");
    assert_eq!(digest_header("{}"), "SHA-256=RBNvo1WzZ4oRRq0W9+hknpT7T8If536DEMBg9hyq/4o=");

    let mut request = unsigned_request();
    request.headers.push(Header { name: "digest".to_string(), value: digest_header(&request.body) });
    let names = vec!["(request-target)".to_string(), "host".to_string(), "digest".to_string()];
    request.signature = sign_request(&request, &ALICE.to_string(), &key.private_key, &names);
    assert_eq!(verify(&request, &actor, &required()), Ok(()));

    // Another body under the same headers and signature is turned down.
    request.body = "{\"forged\":true}".to_string();
    assert_eq!(verify(&request, &actor, &required()), Err(VerificationError::SignatureMismatch));

    // A digest that is not signed is not looked at.
    let mut unsigned_digest = unsigned_request();
    unsigned_digest.headers.push(Header { name: "digest".to_string(), value: "nonsense".to_string() });
    unsigned_digest.signature =
        sign_request(&unsigned_digest, &ALICE.to_string(), &key.private_key, &signed_names());
    assert_eq!(verify(&unsigned_digest, &actor, &required()), Ok(()));
}
