//! What each activity type does to the store. Every handler is given twice:
//! as a function on the state, and as the code that carries it out.

use vstd::prelude::*;
use crate::apub::activities::{undo_vote_comment, undo_vote_post, vote_comment, vote_post, VoteType};
use crate::apub::model::{
    spec_object_kind, Activity, ActivityBody, ActivityKind, ObjectDoc, ObjectKind, ValidTypes,
};
use crate::apub::origin::{check_same_origin, same_origin};
use crate::apub::state::StoreView;
use crate::apub::store::Store;
use crate::utils::{
    local_keys, local_mentions_in, mention_keys, regex_capture_pairs, spec_mentions, MentionData,
    MENTIONS_PATTERN,
};
use crate::websocket::UserOperation;

verus! {

/// Why a handler turned an activity down.
#[derive(Clone, Copy, Debug, PartialEq, Eq, Structural)]
pub enum HandlerError {
    /// The activity is about something the handler has no storage for.
    UnknownObjectType,
    /// The actor has no authority over the object: their domains differ.
    OriginMismatch,
    /// The store could not take the write.
    StorageFailure,
    /// The object reacted to is not stored here.
    ObjectNotFound,
}

/// Tells local clients which object changed, and by which operation.
#[derive(Clone, Copy, Debug, PartialEq, Eq, Structural)]
pub struct Notification {
    pub op: UserOperation,
    /// Local key of the object.
    pub object_id: u64,
}

/// How a handler dealt with an activity it did not turn down.
#[derive(Clone, Copy, Debug, PartialEq, Eq, Structural)]
pub enum Receipt {
    /// The activity took effect; local clients are to be told.
    Applied(Notification),
    /// The activity called for no change.
    NoOp,
    /// The activity is of a type that is not acted on.
    NotImplemented,
}

/// State after a handler ran, and what it answered.
pub ghost struct Step {
    pub store: StoreView,
    pub result: Result<Receipt, HandlerError>,
}

/// The handler turns the activity down and changes nothing.
pub open spec fn rejected(s: StoreView, e: HandlerError) -> Step {
    Step { store: s, result: Err(e) }
}

/// The handler accepts the activity and changes nothing.
pub open spec fn unchanged(s: StoreView, r: Receipt) -> Step {
    Step { store: s, result: Ok(r) }
}

/// The handler has changed the store and tells local clients.
pub open spec fn applied(s: StoreView, op: UserOperation, object_id: u64) -> Step {
    Step { store: s, result: Ok(Receipt::Applied(Notification { op, object_id })) }
}

/// Operation reported when an object of this kind comes into being.
pub open spec fn spec_created_op(kind: ObjectKind) -> UserOperation {
    match kind {
        ObjectKind::Post => UserOperation::CreatePost,
        ObjectKind::Comment => UserOperation::CreateComment,
        ObjectKind::Community => UserOperation::CreateCommunity,
        ObjectKind::Person => UserOperation::Register,
    }
}

/// Operation reported when an object of this kind changes.
pub open spec fn spec_edited_op(kind: ObjectKind) -> UserOperation {
    match kind {
        ObjectKind::Post => UserOperation::EditPost,
        ObjectKind::Comment => UserOperation::EditComment,
        ObjectKind::Community => UserOperation::EditCommunity,
        ObjectKind::Person => UserOperation::SaveUserSettings,
    }
}

/// Operation reported when the reactions to an object of this kind change.
pub open spec fn spec_voted_op(kind: ObjectKind) -> UserOperation {
    match kind {
        ObjectKind::Comment => UserOperation::CreateCommentLike,
        _ => UserOperation::CreatePostLike,
    }
}

/// Operation reported when an object of this kind comes into being.
pub fn created_op(kind: ObjectKind) -> (r: UserOperation)
    ensures
        r == spec_created_op(kind),
{
    match kind {
        ObjectKind::Post => UserOperation::CreatePost,
        ObjectKind::Comment => UserOperation::CreateComment,
        ObjectKind::Community => UserOperation::CreateCommunity,
        ObjectKind::Person => UserOperation::Register,
    }
}

/// Operation reported when an object of this kind changes.
pub fn edited_op(kind: ObjectKind) -> (r: UserOperation)
    ensures
        r == spec_edited_op(kind),
{
    match kind {
        ObjectKind::Post => UserOperation::EditPost,
        ObjectKind::Comment => UserOperation::EditComment,
        ObjectKind::Community => UserOperation::EditCommunity,
        ObjectKind::Person => UserOperation::SaveUserSettings,
    }
}

/// Operation reported when the reactions to an object of this kind change.
pub fn voted_op(kind: ObjectKind) -> (r: UserOperation)
    ensures
        r == spec_voted_op(kind),
{
    match kind {
        ObjectKind::Comment => UserOperation::CreateCommentLike,
        _ => UserOperation::CreatePostLike,
    }
}

/// Posts and comments: the kinds that are voted on.
pub open spec fn is_content(kind: Option<ObjectKind>) -> bool {
    kind == Some(ObjectKind::Post) || kind == Some(ObjectKind::Comment)
}

/// URI of the object a body is about.
pub fn target_of(body: &ActivityBody) -> (r: Option<&String>)
    ensures
        match r {
            Some(uri) => body.target() == Some(uri@),
            None => body.target().is_none(),
        },
{
    match body {
        ActivityBody::Object(doc) => Some(&doc.id),
        ActivityBody::Link(uri) => Some(uri),
        ActivityBody::Activity(_) => None,
    }
}

// ----- Create -----

/// `Create`: the embedded object is stored under its URI, in place of
/// what was stored under it before. The actor's domain must be that of
/// the object's URI and of its attribution.
pub open spec fn spec_receive_create(s: StoreView, a: Activity) -> Step {
    match a.body {
        ActivityBody::Object(doc) => {
            let kind = spec_object_kind(doc.kind@);
            if kind.is_none() {
                rejected(s, HandlerError::UnknownObjectType)
            } else if !same_origin(a.actor@, doc.id@) || !same_origin(a.actor@, doc.attributed_to@) {
                rejected(s, HandlerError::OriginMismatch)
            } else if !s.can_upsert(doc.id@) {
                rejected(s, HandlerError::StorageFailure)
            } else {
                let after = s.upsert_object(doc@, kind.unwrap(), a.updated);
                applied(after, spec_created_op(kind.unwrap()), after.stored_id(doc.id@))
            }
        },
        _ => rejected(s, HandlerError::UnknownObjectType),
    }
}

/// Handles a `Create`.
pub fn receive_create(store: &mut Store, create: &Activity) -> (r: Result<Receipt, HandlerError>)
    requires
        old(store)@.wf(),
    ensures
        final(store)@.wf(),
        final(store)@ == spec_receive_create(old(store)@, *create).store,
        r == spec_receive_create(old(store)@, *create).result,
{
    match &create.body {
        ActivityBody::Object(doc) => {
            let kind = match ObjectKind::from_name(&doc.kind) {
                Some(kind) => kind,
                None => {
                    return Err(HandlerError::UnknownObjectType);
                },
            };
            if !check_same_origin(create.actor.as_str(), doc.id.as_str()) || !check_same_origin(
                create.actor.as_str(),
                doc.attributed_to.as_str(),
            ) {
                return Err(HandlerError::OriginMismatch);
            }
            match store.upsert_object(doc, kind, create.updated) {
                Ok(id) => Ok(
                    Receipt::Applied(Notification { op: created_op(kind), object_id: id }),
                ),
                Err(_) => Err(HandlerError::StorageFailure),
            }
        },
        _ => Err(HandlerError::UnknownObjectType),
    }
}

/// Whom a comment tells: the users of the server called `hostname` that
/// its text mentions, in the order of the text. Nothing but a comment
/// tells anybody this way.
pub open spec fn spec_comment_mentions(doc: ObjectDoc, hostname: Seq<char>) -> Seq<
    (Seq<char>, Seq<char>),
> {
    if spec_object_kind(doc.kind@) == Some(ObjectKind::Comment) {
        local_keys(
            spec_mentions(regex_capture_pairs(MENTIONS_PATTERN@, doc.content@, "name"@, "domain"@)),
            hostname,
        )
    } else {
        Seq::empty()
    }
}

/// The local users that a comment mentions.
pub fn comment_mentions(doc: &ObjectDoc, hostname: &str) -> (r: Vec<MentionData>)
    ensures
        mention_keys(r@) == spec_comment_mentions(*doc, hostname@),
{
    match ObjectKind::from_name(&doc.kind) {
        Some(ObjectKind::Comment) => local_mentions_in(doc.content.as_str(), hostname),
        _ => {
            let nobody: Vec<MentionData> = Vec::new();
            assert(mention_keys(nobody@) =~= Seq::empty());
            nobody
        },
    }
}

// ----- Update -----

/// `Update`: as `Create`, but the later declared time wins: an update
/// older than what is stored changes nothing.
pub open spec fn spec_receive_update(s: StoreView, a: Activity) -> Step {
    match a.body {
        ActivityBody::Object(doc) => {
            let kind = spec_object_kind(doc.kind@);
            if kind.is_none() {
                rejected(s, HandlerError::UnknownObjectType)
            } else if !same_origin(a.actor@, doc.id@) || !same_origin(a.actor@, doc.attributed_to@) {
                rejected(s, HandlerError::OriginMismatch)
            } else if s.has_object(doc.id@) && s.object(doc.id@).unwrap().updated > a.updated {
                unchanged(s, Receipt::NoOp)
            } else if !s.can_upsert(doc.id@) {
                rejected(s, HandlerError::StorageFailure)
            } else {
                let after = s.upsert_object(doc@, kind.unwrap(), a.updated);
                applied(after, spec_edited_op(kind.unwrap()), after.stored_id(doc.id@))
            }
        },
        _ => rejected(s, HandlerError::UnknownObjectType),
    }
}

/// Handles an `Update`.
pub fn receive_update(store: &mut Store, update: &Activity) -> (r: Result<Receipt, HandlerError>)
    requires
        old(store)@.wf(),
    ensures
        final(store)@.wf(),
        final(store)@ == spec_receive_update(old(store)@, *update).store,
        r == spec_receive_update(old(store)@, *update).result,
{
    match &update.body {
        ActivityBody::Object(doc) => {
            let kind = match ObjectKind::from_name(&doc.kind) {
                Some(kind) => kind,
                None => {
                    return Err(HandlerError::UnknownObjectType);
                },
            };
            if !check_same_origin(update.actor.as_str(), doc.id.as_str()) || !check_same_origin(
                update.actor.as_str(),
                doc.attributed_to.as_str(),
            ) {
                return Err(HandlerError::OriginMismatch);
            }
            if let Some(found) = store.locate(&doc.id) {
                if found.updated > update.updated {
                    return Ok(Receipt::NoOp);
                }
            }
            match store.upsert_object(doc, kind, update.updated) {
                Ok(id) => Ok(
                    Receipt::Applied(Notification { op: edited_op(kind), object_id: id }),
                ),
                Err(_) => Err(HandlerError::StorageFailure),
            }
        },
        _ => Err(HandlerError::UnknownObjectType),
    }
}

// ----- Delete -----

/// `Delete`: the object is flagged deleted and keeps its content. The
/// actor's domain must be that of the object's URI. An object that is not
/// stored calls for no change.
pub open spec fn spec_receive_delete(s: StoreView, a: Activity) -> Step {
    match a.body.target() {
        Some(uri) => {
            if !same_origin(a.actor@, uri) {
                rejected(s, HandlerError::OriginMismatch)
            } else {
                match s.object(uri) {
                    Some(o) => applied(
                        s.set_deleted(uri, true, a.updated),
                        spec_edited_op(o.kind),
                        o.id,
                    ),
                    None => unchanged(s, Receipt::NoOp),
                }
            }
        },
        None => rejected(s, HandlerError::UnknownObjectType),
    }
}

/// Handles a `Delete`.
pub fn receive_delete(store: &mut Store, delete: &Activity) -> (r: Result<Receipt, HandlerError>)
    requires
        old(store)@.wf(),
    ensures
        final(store)@.wf(),
        final(store)@ == spec_receive_delete(old(store)@, *delete).store,
        r == spec_receive_delete(old(store)@, *delete).result,
{
    match target_of(&delete.body) {
        Some(uri) => {
            if !check_same_origin(delete.actor.as_str(), uri.as_str()) {
                return Err(HandlerError::OriginMismatch);
            }
            match store.locate(uri) {
                Some(found) => {
                    store.set_deleted(uri, true, delete.updated);
                    Ok(
                        Receipt::Applied(
                            Notification { op: edited_op(found.kind), object_id: found.id },
                        ),
                    )
                },
                None => Ok(Receipt::NoOp),
            }
        },
        None => Err(HandlerError::UnknownObjectType),
    }
}

// ----- Remove -----

/// Whether the actor may moderate for the community the activity is
/// addressed to: the first `cc` entry names that community, and the actor's
/// domain must be the community's.
pub open spec fn moderates(a: Activity) -> bool {
    a.cc@.len() > 0 && same_origin(a.actor@, a.cc@[0]@)
}

/// Decides whether the actor may moderate for the community addressed.
pub fn check_moderates(a: &Activity) -> (r: bool)
    ensures
        r == moderates(*a),
{
    a.cc.len() > 0 && check_same_origin(a.actor.as_str(), a.cc[0].as_str())
}

/// `Remove`: a moderator's action. The post, comment or community is
/// flagged removed and keeps its content. An object that is not stored
/// calls for no change.
pub open spec fn spec_receive_remove(s: StoreView, a: Activity) -> Step {
    match a.body.target() {
        Some(uri) => {
            if !moderates(a) {
                rejected(s, HandlerError::OriginMismatch)
            } else {
                match s.object(uri) {
                    Some(o) => if o.kind == ObjectKind::Person {
                        rejected(s, HandlerError::UnknownObjectType)
                    } else {
                        applied(s.set_removed(uri, true, a.updated), spec_edited_op(o.kind), o.id)
                    },
                    None => unchanged(s, Receipt::NoOp),
                }
            }
        },
        None => rejected(s, HandlerError::UnknownObjectType),
    }
}

/// Handles a `Remove`.
pub fn receive_remove(store: &mut Store, remove: &Activity) -> (r: Result<Receipt, HandlerError>)
    requires
        old(store)@.wf(),
    ensures
        final(store)@.wf(),
        final(store)@ == spec_receive_remove(old(store)@, *remove).store,
        r == spec_receive_remove(old(store)@, *remove).result,
{
    match target_of(&remove.body) {
        Some(uri) => {
            if !check_moderates(remove) {
                return Err(HandlerError::OriginMismatch);
            }
            match store.locate(uri) {
                Some(found) => {
                    match found.kind {
                        ObjectKind::Person => Err(HandlerError::UnknownObjectType),
                        _ => {
                            store.set_removed(uri, true, remove.updated);
                            Ok(
                                Receipt::Applied(
                                    Notification {
                                        op: edited_op(found.kind),
                                        object_id: found.id,
                                    },
                                ),
                            )
                        },
                    }
                },
                None => Ok(Receipt::NoOp),
            }
        },
        None => Err(HandlerError::UnknownObjectType),
    }
}

// ----- Like, Dislike -----

/// A vote: the actor's reaction to the post or comment is stored in place
/// of any earlier one. Any actor may vote on any object that is stored.
pub open spec fn spec_receive_vote(s: StoreView, a: Activity, score: i8) -> Step {
    match a.body.target() {
        Some(uri) => match s.object(uri) {
            Some(o) => if is_content(Some(o.kind)) {
                applied(s.upsert_reaction(o.id, a.actor@, score), spec_voted_op(o.kind), o.id)
            } else {
                rejected(s, HandlerError::UnknownObjectType)
            },
            None => rejected(s, HandlerError::ObjectNotFound),
        },
        None => rejected(s, HandlerError::UnknownObjectType),
    }
}

/// `Like`: a vote that counts `1`.
pub open spec fn spec_receive_like(s: StoreView, a: Activity) -> Step {
    spec_receive_vote(s, a, 1i8)
}

/// `Dislike`: a vote that counts `-1`.
pub open spec fn spec_receive_dislike(s: StoreView, a: Activity) -> Step {
    spec_receive_vote(s, a, -1i8)
}

fn receive_vote(store: &mut Store, vote: &Activity, vote_type: VoteType) -> (r: Result<
    Receipt,
    HandlerError,
>)
    requires
        old(store)@.wf(),
    ensures
        final(store)@.wf(),
        final(store)@ == spec_receive_vote(old(store)@, *vote, vote_type.spec_score()).store,
        r == spec_receive_vote(old(store)@, *vote, vote_type.spec_score()).result,
{
    match target_of(&vote.body) {
        Some(uri) => match store.locate(uri) {
            Some(found) => {
                match found.kind {
                    ObjectKind::Post => Ok(
                        Receipt::Applied(vote_post(store, vote_type, &vote.actor, found.id)),
                    ),
                    ObjectKind::Comment => Ok(
                        Receipt::Applied(vote_comment(store, vote_type, &vote.actor, found.id)),
                    ),
                    _ => Err(HandlerError::UnknownObjectType),
                }
            },
            None => Err(HandlerError::ObjectNotFound),
        },
        None => Err(HandlerError::UnknownObjectType),
    }
}

/// Handles a `Like`.
pub fn receive_like(store: &mut Store, like: &Activity) -> (r: Result<Receipt, HandlerError>)
    requires
        old(store)@.wf(),
    ensures
        final(store)@.wf(),
        final(store)@ == spec_receive_like(old(store)@, *like).store,
        r == spec_receive_like(old(store)@, *like).result,
{
    receive_vote(store, like, VoteType::Like)
}

/// Handles a `Dislike`.
pub fn receive_dislike(store: &mut Store, dislike: &Activity) -> (r: Result<
    Receipt,
    HandlerError,
>)
    requires
        old(store)@.wf(),
    ensures
        final(store)@.wf(),
        final(store)@ == spec_receive_dislike(old(store)@, *dislike).store,
        r == spec_receive_dislike(old(store)@, *dislike).result,
{
    receive_vote(store, dislike, VoteType::Dislike)
}

// ----- Undo -----

/// The inverse of an activity that is on the ledger, taken at the time
/// `when`.
pub open spec fn spec_undo_known(s: StoreView, inner: Activity, when: i64) -> Step {
    match inner.body.target() {
        Some(uri) => match inner.kind.known() {
            Some(ValidTypes::Like) | Some(ValidTypes::Dislike) => match s.object(uri) {
                Some(o) => if s.reaction(o.id, inner.actor@).is_some() {
                    applied(s.remove_reaction(o.id, inner.actor@), spec_voted_op(o.kind), o.id)
                } else {
                    unchanged(s, Receipt::NoOp)
                },
                None => unchanged(s, Receipt::NoOp),
            },
            Some(ValidTypes::Delete) => if !same_origin(inner.actor@, uri) {
                rejected(s, HandlerError::OriginMismatch)
            } else {
                match s.object(uri) {
                    Some(o) => applied(
                        s.set_deleted(uri, false, when),
                        spec_edited_op(o.kind),
                        o.id,
                    ),
                    None => unchanged(s, Receipt::NoOp),
                }
            },
            Some(ValidTypes::Remove) => if !moderates(inner) {
                rejected(s, HandlerError::OriginMismatch)
            } else {
                match s.object(uri) {
                    Some(o) => applied(
                        s.set_removed(uri, false, when),
                        spec_edited_op(o.kind),
                        o.id,
                    ),
                    None => unchanged(s, Receipt::NoOp),
                }
            },
            _ => unchanged(s, Receipt::NotImplemented),
        },
        None => rejected(s, HandlerError::UnknownObjectType),
    }
}

/// `Undo`: the wrapped activity is looked up on the ledger and its effect
/// is taken back: a vote is dropped, a `deleted` or `removed` flag is
/// cleared. An activity that was never seen calls for no change, whoever
/// asks. Only the actor of an activity may undo it.
pub open spec fn spec_receive_undo(s: StoreView, a: Activity) -> Step {
    match a.body {
        ActivityBody::Activity(inner) => {
            if !s.is_known(inner.id@) {
                unchanged(s, Receipt::NoOp)
            } else if inner.actor@ != a.actor@ {
                rejected(s, HandlerError::OriginMismatch)
            } else {
                spec_undo_known(s, *inner, a.updated)
            }
        },
        _ => rejected(s, HandlerError::UnknownObjectType),
    }
}

fn undo_known(store: &mut Store, inner: &Activity, when: i64) -> (r: Result<Receipt, HandlerError>)
    requires
        old(store)@.wf(),
    ensures
        final(store)@.wf(),
        final(store)@ == spec_undo_known(old(store)@, *inner, when).store,
        r == spec_undo_known(old(store)@, *inner, when).result,
{
    let uri = match target_of(&inner.body) {
        Some(uri) => uri,
        None => {
            return Err(HandlerError::UnknownObjectType);
        },
    };
    match &inner.kind {
        ActivityKind::Known(ValidTypes::Like)
        | ActivityKind::Known(ValidTypes::Dislike) => {
            match store.locate(uri) {
                Some(found) => {
                    if store.reaction(found.id, inner.actor.as_str()).is_none() {
                        Ok(Receipt::NoOp)
                    } else {
                        match found.kind {
                            ObjectKind::Comment => Ok(
                                Receipt::Applied(undo_vote_comment(store, &inner.actor, found.id)),
                            ),
                            _ => Ok(
                                Receipt::Applied(undo_vote_post(store, &inner.actor, found.id)),
                            ),
                        }
                    }
                },
                None => Ok(Receipt::NoOp),
            }
        },
        ActivityKind::Known(ValidTypes::Delete) => {
            if !check_same_origin(inner.actor.as_str(), uri.as_str()) {
                return Err(HandlerError::OriginMismatch);
            }
            match store.locate(uri) {
                Some(found) => {
                    store.set_deleted(uri, false, when);
                    Ok(
                        Receipt::Applied(
                            Notification { op: edited_op(found.kind), object_id: found.id },
                        ),
                    )
                },
                None => Ok(Receipt::NoOp),
            }
        },
        ActivityKind::Known(ValidTypes::Remove) => {
            if !check_moderates(inner) {
                return Err(HandlerError::OriginMismatch);
            }
            match store.locate(uri) {
                Some(found) => {
                    store.set_removed(uri, false, when);
                    Ok(
                        Receipt::Applied(
                            Notification { op: edited_op(found.kind), object_id: found.id },
                        ),
                    )
                },
                None => Ok(Receipt::NoOp),
            }
        },
        _ => Ok(Receipt::NotImplemented),
    }
}

/// Handles an `Undo`.
pub fn receive_undo(store: &mut Store, undo: &Activity) -> (r: Result<Receipt, HandlerError>)
    requires
        old(store)@.wf(),
    ensures
        final(store)@.wf(),
        final(store)@ == spec_receive_undo(old(store)@, *undo).store,
        r == spec_receive_undo(old(store)@, *undo).result,
{
    match &undo.body {
        ActivityBody::Activity(inner) => {
            if !store.is_known(&inner.id) {
                return Ok(Receipt::NoOp);
            }
            if inner.actor != undo.actor {
                return Err(HandlerError::OriginMismatch);
            }
            undo_known(store, inner, undo.updated)
        },
        _ => Err(HandlerError::UnknownObjectType),
    }
}

} // verus!
