//! Activities that this server originates: votes as they are applied to
//! the store, the deletion of an account, and the way out to other
//! servers.

use vstd::prelude::*;
use vstd::string::StringExecFns;
use crate::apub::activity_queue::{DeliveryError, DeliveryQueue};
use crate::apub::dispatch::{make_record, record_of};
use crate::apub::handlers::{target_of, Notification};
use crate::apub::model::{Activity, ActivityBody, ActivityKind, Actor, ValidTypes};
use crate::apub::store::Store;
use crate::rows::first_occurrences;
use crate::text::{clone_texts, texts};
use crate::websocket::UserOperation;

verus! {

/// The collection that stands for everybody.
pub const PUBLIC: &'static str = "https://www.w3.org/ns/activitystreams#Public";

// ----- votes -----

/// The two ways to vote.
#[derive(Clone, Copy, Debug, PartialEq, Eq, Structural)]
pub enum VoteType {
    Like,
    Dislike,
}

impl VoteType {
    /// What a vote of this type counts.
    pub open spec fn spec_score(self) -> i8 {
        match self {
            VoteType::Like => 1,
            VoteType::Dislike => -1i8,
        }
    }

    /// What a vote of this type counts: `1` or `-1`.
    pub fn score(self) -> (r: i8)
        ensures
            r == self.spec_score(),
    {
        match self {
            VoteType::Like => 1,
            VoteType::Dislike => -1,
        }
    }
}

/// Stores the actor's vote on a post in place of any earlier one and says
/// what local clients are to be told.
pub fn vote_post(store: &mut Store, vote_type: VoteType, actor: &String, post_id: u64) -> (r:
    Notification)
    requires
        old(store)@.wf(),
    ensures
        final(store)@.wf(),
        final(store)@ == old(store)@.upsert_reaction(post_id, actor@, vote_type.spec_score()),
        r == (Notification { op: UserOperation::CreatePostLike, object_id: post_id }),
{
    store.upsert_reaction(post_id, actor, vote_type.score());
    Notification { op: UserOperation::CreatePostLike, object_id: post_id }
}

/// Stores the actor's vote on a comment in place of any earlier one and
/// says what local clients are to be told.
pub fn vote_comment(store: &mut Store, vote_type: VoteType, actor: &String, comment_id: u64) -> (r:
    Notification)
    requires
        old(store)@.wf(),
    ensures
        final(store)@.wf(),
        final(store)@ == old(store)@.upsert_reaction(comment_id, actor@, vote_type.spec_score()),
        r == (Notification { op: UserOperation::CreateCommentLike, object_id: comment_id }),
{
    store.upsert_reaction(comment_id, actor, vote_type.score());
    Notification { op: UserOperation::CreateCommentLike, object_id: comment_id }
}

/// Drops the actor's vote on a post, if there is one, and says what local
/// clients are to be told.
pub fn undo_vote_post(store: &mut Store, actor: &String, post_id: u64) -> (r: Notification)
    requires
        old(store)@.wf(),
    ensures
        final(store)@.wf(),
        final(store)@ == old(store)@.remove_reaction(post_id, actor@),
        r == (Notification { op: UserOperation::CreatePostLike, object_id: post_id }),
{
    store.remove_reaction(post_id, actor);
    Notification { op: UserOperation::CreatePostLike, object_id: post_id }
}

/// Drops the actor's vote on a comment, if there is one, and says what
/// local clients are to be told.
pub fn undo_vote_comment(store: &mut Store, actor: &String, comment_id: u64) -> (r: Notification)
    requires
        old(store)@.wf(),
    ensures
        final(store)@.wf(),
        final(store)@ == old(store)@.remove_reaction(comment_id, actor@),
        r == (Notification { op: UserOperation::CreateCommentLike, object_id: comment_id }),
{
    store.remove_reaction(comment_id, actor);
    Notification { op: UserOperation::CreateCommentLike, object_id: comment_id }
}

/// The activity by which an actor votes on an object, addressed to
/// everybody and to the followers of the object's community.
pub fn vote_activity(
    vote_type: VoteType,
    actor: &Actor,
    object: &String,
    community_followers: &String,
    activity_id: String,
    now: i64,
) -> (r: Activity)
    ensures
        r.id == activity_id,
        r.kind.known() == Some(
            match vote_type {
                VoteType::Like => ValidTypes::Like,
                VoteType::Dislike => ValidTypes::Dislike,
            },
        ),
        r.actor@ == actor@.uri,
        texts(r.to@) == seq![PUBLIC@],
        texts(r.cc@) == seq![community_followers@],
        r.updated == now,
        r.body.target() == Some(object@),
{
    let mut to: Vec<String> = Vec::new();
    to.push(PUBLIC.to_owned());
    assert(texts(to@) =~= seq![PUBLIC@]);
    let mut cc: Vec<String> = Vec::new();
    cc.push(community_followers.clone());
    assert(texts(cc@) =~= seq![community_followers@]);
    Activity {
        id: activity_id,
        kind: ActivityKind::Known(
            match vote_type {
                VoteType::Like => ValidTypes::Like,
                VoteType::Dislike => ValidTypes::Dislike,
            },
        ),
        actor: actor.uri.clone(),
        to,
        cc,
        updated: now,
        body: ActivityBody::Link(object.clone()),
    }
}

/// The `Undo` by which an actor takes back an activity of its own. It is
/// addressed as the activity it takes back.
pub fn undo_activity(inner: Activity, activity_id: String, now: i64) -> (r: Activity)
    ensures
        r.id == activity_id,
        r.kind.known() == Some(ValidTypes::Undo),
        r.actor@ == inner.actor@,
        r.to@ == inner.to@,
        r.cc@ == inner.cc@,
        r.updated == now,
        r.body is Activity,
        *r.body->Activity_0 == inner,
{
    Activity {
        id: activity_id,
        kind: ActivityKind::Known(ValidTypes::Undo),
        actor: inner.actor.clone(),
        to: clone_texts(&inner.to),
        cc: clone_texts(&inner.cc),
        updated: now,
        body: ActivityBody::Activity(Box::new(inner)),
    }
}

/// URI of the followers collection of a community.
pub open spec fn spec_followers_uri(community: Seq<char>) -> Seq<char> {
    community + "/followers"@
}

/// The `Announce` by which a community relays an activity: it is the
/// community's, addressed to everybody and to the community's followers,
/// and holds the relayed activity whole.
pub fn announce_activity(community: &Actor, relayed: Activity, activity_id: String, now: i64) -> (r:
    Activity)
    ensures
        r.id == activity_id,
        r.kind.known() == Some(ValidTypes::Announce),
        r.actor@ == community@.uri,
        texts(r.to@) == seq![PUBLIC@],
        texts(r.cc@) == seq![spec_followers_uri(community@.uri)],
        r.updated == now,
        r.body is Activity,
        *r.body->Activity_0 == relayed,
{
    let mut to: Vec<String> = Vec::new();
    to.push(PUBLIC.to_owned());
    assert(texts(to@) =~= seq![PUBLIC@]);
    let mut followers = community.uri.clone();
    followers.append("/followers");
    let mut cc: Vec<String> = Vec::new();
    cc.push(followers);
    assert(texts(cc@) =~= seq![spec_followers_uri(community@.uri)]);
    Activity {
        id: activity_id,
        kind: ActivityKind::Known(ValidTypes::Announce),
        actor: community.uri.clone(),
        to,
        cc,
        updated: now,
        body: ActivityBody::Activity(Box::new(relayed)),
    }
}

// ----- deletion of an account -----

/// The activity is addressed to everybody.
pub open spec fn spec_is_public(to: Seq<String>, cc: Seq<String>) -> bool {
    texts(to).contains(PUBLIC@) || texts(cc).contains(PUBLIC@)
}

fn names_public(list: &Vec<String>) -> (r: bool)
    ensures
        r == texts(list@).contains(PUBLIC@),
{
    let public = PUBLIC.to_owned();
    let mut i: usize = 0;
    while i < list.len()
        invariant
            i <= list.len(),
            public@ == PUBLIC@,
            forall|j: int| 0 <= j < i ==> texts(list@)[j] != PUBLIC@,
        decreases list.len() - i,
    {
        if list[i] == public {
            assert(texts(list@)[i as int] == PUBLIC@);
            return true;
        }
        i += 1;
    }
    false
}

/// Whether an activity with this audience is addressed to everybody.
pub fn verify_is_public(to: &Vec<String>, cc: &Vec<String>) -> (r: bool)
    ensures
        r == spec_is_public(to@, cc@),
{
    names_public(to) || names_public(cc)
}

/// Whether two URIs are the same.
pub fn verify_urls_match(a: &String, b: &String) -> (r: bool)
    ensures
        r == (a@ == b@),
{
    *a == *b
}

/// An account is deleted by its own actor, in public: the activity names
/// everybody in `to`, and its object is its actor. What `cc` says does
/// not make it public.
pub open spec fn spec_verify_delete_user(a: Activity) -> bool {
    spec_is_public(a.to@, Seq::empty()) && a.body.target() == Some(a.actor@)
}

/// Checks that a `Delete` of an account comes from that account and is
/// public.
pub fn verify_delete_user(a: &Activity) -> (r: bool)
    ensures
        r == spec_verify_delete_user(*a),
{
    let nobody: Vec<String> = Vec::new();
    if !verify_is_public(&a.to, &nobody) {
        return false;
    }
    match target_of(&a.body) {
        Some(uri) => verify_urls_match(&a.actor, uri),
        None => false,
    }
}

/// The `Delete` by which an actor announces the deletion of its account.
pub fn delete_user_activity(actor: &Actor, activity_id: String, now: i64) -> (r: Activity)
    ensures
        r.id == activity_id,
        r.kind.known() == Some(ValidTypes::Delete),
        r.actor@ == actor@.uri,
        texts(r.to@) == seq![PUBLIC@],
        r.cc@.len() == 0,
        r.updated == now,
        r.body.target() == Some(actor@.uri),
        spec_verify_delete_user(r),
{
    let mut to: Vec<String> = Vec::new();
    to.push(PUBLIC.to_owned());
    assert(texts(to@) =~= seq![PUBLIC@]);
    assert(texts(to@)[0] == PUBLIC@);
    Activity {
        id: activity_id,
        kind: ActivityKind::Known(ValidTypes::Delete),
        actor: actor.uri.clone(),
        to,
        cc: Vec::new(),
        updated: now,
        body: ActivityBody::Link(actor.uri.clone()),
    }
}

// ----- the way out -----

/// Sends an activity that this server originates: it is put on the ledger
/// as originated here and enqueued for the given inboxes, each inbox
/// once. Returns the number of deliveries enqueued. Nothing is recorded
/// or enqueued when the actor has no private key or the queue is full.
pub fn send_lemmy_activity(
    store: &mut Store,
    queue: &mut DeliveryQueue,
    activity: &Activity,
    payload: &String,
    actor: &Actor,
    inboxes: &Vec<String>,
    now: i64,
) -> (r: Result<usize, DeliveryError>)
    requires
        old(store)@.wf(),
        old(queue)@.wf(),
    ensures
        final(store)@.wf(),
        final(queue)@.wf(),
        r.is_err() ==> final(store)@ == old(store)@ && final(queue)@ == old(queue)@,
        r.is_err() <==> actor@.private_key.is_none() || old(queue)@.next_job + first_occurrences(
            texts(inboxes@),
        ).len() > u64::MAX,
        r.is_ok() ==> final(store)@ == old(store)@.record(record_of(*activity, payload@, true, now))
            && final(queue)@ == old(queue)@.enqueue(
            payload@,
            actor@.uri,
            actor@.private_key.unwrap(),
            texts(inboxes@),
            now,
        ) && r == Ok::<usize, DeliveryError>(first_occurrences(texts(inboxes@)).len() as usize),
{
    let made = queue.send_activity(payload, actor, inboxes, now);
    if made.is_ok() {
        store.record(make_record(activity, payload, true, now));
    }
    made
}

} // verus!
