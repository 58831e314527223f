//! Routing of an activity to its handler by declared type, with one level
//! of `Announce` unwrapping.

use vstd::prelude::*;
use crate::apub::handlers::{
    comment_mentions, receive_create, receive_delete, receive_dislike, receive_like,
    receive_remove, receive_undo, receive_update, rejected, spec_comment_mentions,
    spec_receive_create, spec_receive_delete, spec_receive_dislike,
    spec_receive_like, spec_receive_remove, spec_receive_undo, spec_receive_update, unchanged,
    HandlerError, Receipt, Step,
};
use crate::apub::model::{
    Activity, ActivityBody, ActivityKind, ActivityRecord, RecordView, ValidTypes,
};
use crate::apub::state::StoreView;
use crate::apub::store::Store;
use crate::utils::{mention_keys, MentionData};

verus! {

/// The ledger row of an activity received at time `now`.
pub open spec fn record_of(a: Activity, payload: Seq<char>, local: bool, now: i64) -> RecordView {
    RecordView {
        id: a.id@,
        kind: a.kind.spec_name(),
        actor: a.actor@,
        payload,
        local,
        received: now,
    }
}

/// Builds the ledger row of an activity.
pub fn make_record(a: &Activity, payload: &String, local: bool, now: i64) -> (r: ActivityRecord)
    ensures
        r@ == record_of(*a, payload@, local, now),
{
    ActivityRecord {
        id: a.id.clone(),
        kind: a.kind.name(),
        actor: a.actor.clone(),
        payload: payload.clone(),
        local,
        received: now,
    }
}

/// An activity of a type that is not acted on is acknowledged and leaves
/// no trace in the store.
pub fn receive_unhandled_activity(activity: &Activity) -> (r: Result<Receipt, HandlerError>)
    ensures
        r == Ok::<Receipt, HandlerError>(Receipt::NotImplemented),
{
    Ok(Receipt::NotImplemented)
}

/// Dispatch of an activity that is taken as it stands: every known type
/// but `Announce` goes to its handler, anything else is acknowledged
/// without effect.
pub open spec fn spec_dispatch_direct(s: StoreView, a: Activity) -> Step {
    match a.kind.known() {
        Some(ValidTypes::Create) => spec_receive_create(s, a),
        Some(ValidTypes::Update) => spec_receive_update(s, a),
        Some(ValidTypes::Like) => spec_receive_like(s, a),
        Some(ValidTypes::Dislike) => spec_receive_dislike(s, a),
        Some(ValidTypes::Delete) => spec_receive_delete(s, a),
        Some(ValidTypes::Remove) => spec_receive_remove(s, a),
        Some(ValidTypes::Undo) => spec_receive_undo(s, a),
        Some(ValidTypes::Announce) => unchanged(s, Receipt::NotImplemented),
        None => unchanged(s, Receipt::NotImplemented),
    }
}

fn dispatch_direct(store: &mut Store, activity: &Activity) -> (r: Result<Receipt, HandlerError>)
    requires
        old(store)@.wf(),
    ensures
        final(store)@.wf(),
        final(store)@ == spec_dispatch_direct(old(store)@, *activity).store,
        r == spec_dispatch_direct(old(store)@, *activity).result,
{
    match &activity.kind {
        ActivityKind::Known(ValidTypes::Create) => receive_create(store, activity),
        ActivityKind::Known(ValidTypes::Update) => receive_update(store, activity),
        ActivityKind::Known(ValidTypes::Like) => receive_like(store, activity),
        ActivityKind::Known(ValidTypes::Dislike) => receive_dislike(store, activity),
        ActivityKind::Known(ValidTypes::Delete) => receive_delete(store, activity),
        ActivityKind::Known(ValidTypes::Remove) => receive_remove(store, activity),
        ActivityKind::Known(ValidTypes::Undo) => receive_undo(store, activity),
        _ => receive_unhandled_activity(activity),
    }
}

/// `Announce`: the relayed activity goes to the handler of its type, as
/// if it had been received directly. A relayed `Announce` is not unwrapped
/// again. What is relayed and is no activity, an object or a bare URI, is
/// acknowledged without effect, as anything is that no handler acts on.
/// An activity that is no `Announce` is turned down.
pub open spec fn spec_receive_announce(s: StoreView, a: Activity) -> Step {
    if a.kind.known() != Some(ValidTypes::Announce) {
        rejected(s, HandlerError::UnknownObjectType)
    } else {
        match a.body {
            ActivityBody::Activity(inner) => spec_dispatch_direct(s, *inner),
            _ => unchanged(s, Receipt::NotImplemented),
        }
    }
}

/// Handles an `Announce`.
pub fn receive_announce(store: &mut Store, announce: &Activity) -> (r: Result<
    Receipt,
    HandlerError,
>)
    requires
        old(store)@.wf(),
    ensures
        final(store)@.wf(),
        final(store)@ == spec_receive_announce(old(store)@, *announce).store,
        r == spec_receive_announce(old(store)@, *announce).result,
{
    match (&announce.kind, &announce.body) {
        (ActivityKind::Known(ValidTypes::Announce), ActivityBody::Activity(inner)) => {
            dispatch_direct(store, inner)
        },
        (ActivityKind::Known(ValidTypes::Announce), _) => receive_unhandled_activity(announce),
        _ => Err(HandlerError::UnknownObjectType),
    }
}

/// The dispatcher: a switch on the declared type. A type that is not
/// recognized is no error.
pub open spec fn spec_dispatch(s: StoreView, a: Activity) -> Step {
    if a.kind.known() == Some(ValidTypes::Announce) {
        spec_receive_announce(s, a)
    } else {
        spec_dispatch_direct(s, a)
    }
}

/// Routes an activity to the handler of its type.
pub fn dispatch(store: &mut Store, activity: &Activity) -> (r: Result<Receipt, HandlerError>)
    requires
        old(store)@.wf(),
    ensures
        final(store)@.wf(),
        final(store)@ == spec_dispatch(old(store)@, *activity).store,
        r == spec_dispatch(old(store)@, *activity).result,
{
    match &activity.kind {
        ActivityKind::Known(ValidTypes::Announce) => receive_announce(store, activity),
        _ => dispatch_direct(store, activity),
    }
}

/// The activity that goes to a handler: the relayed one for an
/// `Announce`, the activity itself otherwise.
pub open spec fn effective(a: Activity) -> Activity {
    if a.kind.known() == Some(ValidTypes::Announce) && a.body is Activity {
        *a.body->Activity_0
    } else {
        a
    }
}

/// The activity that goes to a handler.
pub fn effective_activity(a: &Activity) -> (r: &Activity)
    ensures
        *r == effective(*a),
{
    match (&a.kind, &a.body) {
        (ActivityKind::Known(ValidTypes::Announce), ActivityBody::Activity(inner)) => inner,
        _ => a,
    }
}

/// The local users to tell of a mention when the activity has taken
/// effect: those that the comment mentions which the activity, or the one
/// it relays, creates.
pub open spec fn spec_mentions_told(a: Activity, hostname: Seq<char>) -> Seq<
    (Seq<char>, Seq<char>),
> {
    let e = effective(a);
    if e.kind.known() == Some(ValidTypes::Create) && e.body is Object {
        spec_comment_mentions(e.body->Object_0, hostname)
    } else {
        Seq::empty()
    }
}

/// The local users to tell of a mention once the activity has taken
/// effect.
pub fn mentions_told(activity: &Activity, hostname: &str) -> (r: Vec<MentionData>)
    ensures
        mention_keys(r@) == spec_mentions_told(*activity, hostname@),
{
    let e = effective_activity(activity);
    match (&e.kind, &e.body) {
        (ActivityKind::Known(ValidTypes::Create), ActivityBody::Object(doc)) => comment_mentions(
            doc,
            hostname,
        ),
        _ => {
            let nobody: Vec<MentionData> = Vec::new();
            assert(mention_keys(nobody@) =~= Seq::empty());
            nobody
        },
    }
}

/// Dispatch followed by the ledger entries, which are written whatever
/// the handler answered: one for the activity that was delivered and, for
/// an `Announce`, one for the activity it relays. Both have been seen.
pub open spec fn spec_handle(s: StoreView, a: Activity, payload: Seq<char>, now: i64) -> Step {
    let step = spec_dispatch(s, a);
    Step {
        store: step.store.record(record_of(a, payload, false, now)).record(
            record_of(effective(a), payload, false, now),
        ),
        result: step.result,
    }
}

/// Dispatches an activity and puts it on the ledger.
pub fn handle(store: &mut Store, activity: &Activity, payload: &String, now: i64) -> (r: Result<
    Receipt,
    HandlerError,
>)
    requires
        old(store)@.wf(),
    ensures
        final(store)@.wf(),
        final(store)@ == spec_handle(old(store)@, *activity, payload@, now).store,
        r == spec_handle(old(store)@, *activity, payload@, now).result,
{
    let res = dispatch(store, activity);
    store.record(make_record(activity, payload, false, now));
    store.record(make_record(effective_activity(activity), payload, false, now));
    res
}

} // verus!
