//! What holds of the handlers and the dispatcher on every state.

use vstd::prelude::*;
use crate::apub::dispatch::{
    effective, record_of, spec_dispatch, spec_dispatch_direct, spec_handle,
};
use crate::apub::handlers::{
    is_content, spec_receive_create, spec_receive_delete, spec_receive_remove, spec_receive_undo,
    spec_receive_update, spec_receive_vote, spec_undo_known, unchanged, HandlerError, Receipt,
};
use crate::apub::model::{
    spec_object_kind, Activity, ActivityBody, ActorView, DocView, ObjectKind, ValidTypes,
};
use crate::apub::origin::same_origin;
use crate::apub::state::{actor_keys, object_keys, reaction_keys, StoreView};
use crate::rows::{lemma_occurrences_distinct, occurrences};

verus! {

/// Every handler keeps the tables well formed.
pub proof fn lemma_dispatch_direct_wf(s: StoreView, a: Activity)
    requires
        s.wf(),
    ensures
        spec_dispatch_direct(s, a).store.wf(),
{
    match a.body {
        ActivityBody::Object(doc) => {
            s.lemma_upsert_object(
                doc@,
                spec_object_kind(doc.kind@).unwrap_or(ObjectKind::Post),
                a.updated,
            );
            s.lemma_set_flags(doc.id@, true, a.updated);
            if s.has_object(doc.id@) {
                s.lemma_upsert_reaction(s.object(doc.id@).unwrap().id, a.actor@, 1);
                s.lemma_upsert_reaction(s.object(doc.id@).unwrap().id, a.actor@, -1i8);
            }
        },
        ActivityBody::Link(uri) => {
            s.lemma_set_flags(uri@, true, a.updated);
            if s.has_object(uri@) {
                s.lemma_upsert_reaction(s.object(uri@).unwrap().id, a.actor@, 1);
                s.lemma_upsert_reaction(s.object(uri@).unwrap().id, a.actor@, -1i8);
            }
        },
        ActivityBody::Activity(inner) => {
            match inner.body.target() {
                Some(uri) => {
                    s.lemma_set_flags(uri, false, a.updated);
                    if s.has_object(uri) {
                        s.lemma_remove_reaction(s.object(uri).unwrap().id, inner.actor@);
                    }
                },
                None => {},
            }
        },
    }
}

/// Handling an activity keeps the tables well formed and puts the activity
/// on the ledger.
pub proof fn lemma_handle_wf(s: StoreView, a: Activity, payload: Seq<char>, now: i64)
    requires
        s.wf(),
    ensures
        spec_dispatch(s, a).store.wf(),
        spec_handle(s, a, payload, now).store.wf(),
        spec_handle(s, a, payload, now).store.is_known(a.id@),
        spec_handle(s, a, payload, now).store.is_known(effective(a).id@),
        spec_handle(s, a, payload, now).store.objects == spec_dispatch(s, a).store.objects,
        spec_handle(s, a, payload, now).store.reactions == spec_dispatch(s, a).store.reactions,
        spec_handle(s, a, payload, now).store.actors == spec_dispatch(s, a).store.actors,
{
    let rec = record_of(a, payload, false, now);
    lemma_dispatch_direct_wf(s, a);
    if a.kind.known() == Some(ValidTypes::Announce) {
        match a.body {
            ActivityBody::Activity(inner) => {
                lemma_dispatch_direct_wf(s, *inner);
            },
            _ => {},
        }
    }
    spec_dispatch(s, a).store.lemma_record(rec);
    spec_dispatch(s, a).store.record(rec).lemma_record(
        record_of(effective(a), payload, false, now),
    );
}

/// Every row of `before` is still there in `after`, at its place and under
/// its URI and local key.
pub open spec fn objects_persist(before: StoreView, after: StoreView) -> bool {
    &&& before.objects.len() <= after.objects.len()
    &&& forall|i: int|
        0 <= i < before.objects.len() ==> (#[trigger] after.objects[i]).ap_id
            == before.objects[i].ap_id && after.objects[i].id == before.objects[i].id
}

/// Every record of `before` is still on the ledger of `after`, unchanged.
pub open spec fn ledger_grows(before: StoreView, after: StoreView) -> bool {
    &&& before.ledger.len() <= after.ledger.len()
    &&& forall|i: int| 0 <= i < before.ledger.len() ==> #[trigger] after.ledger[i] == before.ledger[i]
}

/// Nothing that was stored is ever erased: whatever the activity, every
/// stored object is still stored afterwards under its URI and local key,
/// and every ledger record is kept as it was written.
pub proof fn law_nothing_is_erased(s: StoreView, a: Activity, payload: Seq<char>, now: i64)
    requires
        s.wf(),
    ensures
        objects_persist(s, spec_dispatch(s, a).store),
        objects_persist(s, spec_handle(s, a, payload, now).store),
        ledger_grows(s, spec_dispatch(s, a).store),
        ledger_grows(s, spec_handle(s, a, payload, now).store),
{
    lemma_direct_keeps_rows(s, a);
    match a.body {
        ActivityBody::Activity(inner) => {
            lemma_direct_keeps_rows(s, *inner);
        },
        _ => {},
    }
}

/// A handler erases no object and does not touch the ledger.
proof fn lemma_direct_keeps_rows(s: StoreView, a: Activity)
    requires
        s.wf(),
    ensures
        objects_persist(s, spec_dispatch_direct(s, a).store),
        spec_dispatch_direct(s, a).store.ledger == s.ledger,
{
    match a.body {
        ActivityBody::Object(doc) => {
            s.lemma_upsert_object(
                doc@,
                spec_object_kind(doc.kind@).unwrap_or(ObjectKind::Post),
                a.updated,
            );
            s.lemma_set_flags(doc.id@, true, a.updated);
        },
        ActivityBody::Link(uri) => {
            s.lemma_set_flags(uri@, true, a.updated);
        },
        ActivityBody::Activity(inner) => {
            match inner.body.target() {
                Some(uri) => {
                    s.lemma_set_flags(uri, false, a.updated);
                },
                None => {},
            }
        },
    }
}

/// Deleting and removing only flag: a `Delete` or a `Remove` leaves the
/// content, the owner and the parent of every stored object as they were.
pub proof fn law_flags_keep_content(s: StoreView, a: Activity)
    requires
        s.wf(),
        a.kind.known() == Some(ValidTypes::Delete) || a.kind.known() == Some(ValidTypes::Remove),
    ensures
        spec_dispatch(s, a).store.objects.len() == s.objects.len(),
        forall|i: int|
            0 <= i < s.objects.len() ==> (#[trigger] spec_dispatch(s, a).store.objects[i]).content == s.objects[i].content && spec_dispatch(s, a).store.objects[i].owner == s.objects[i].owner && spec_dispatch(s, a).store.objects[i].parent == s.objects[i].parent,
{
    match a.body.target() {
        Some(uri) => {
            s.lemma_set_flags(uri, true, a.updated);
        },
        None => {},
    }
}

/// Writers of one actor converge: however often and with whatever
/// documents an actor is put in the cache, the cache holds one row for
/// its URI, and putting the same document twice is the same as putting it
/// once.
pub proof fn law_actor_upserts_converge(s: StoreView, first: ActorView, second: ActorView)
    requires
        s.wf(),
        first.uri == second.uri,
    ensures
        occurrences(actor_keys(s.upsert_actor(first).upsert_actor(second).actors), first.uri) == 1,
        s.upsert_actor(first).upsert_actor(first) == s.upsert_actor(first),
{
    s.lemma_upsert_actor(first);
    let once = s.upsert_actor(first);
    once.lemma_upsert_actor(second);
    once.lemma_upsert_actor(first);
    lemma_occurrences_distinct(actor_keys(once.upsert_actor(second).actors), first.uri);
    assert(once.upsert_actor(first).actors =~= once.actors);
}

/// Writers of one object converge: however often an object is stored,
/// there is one row for its URI.
pub proof fn law_object_upserts_converge(
    s: StoreView,
    first: DocView,
    second: DocView,
    kind: ObjectKind,
    when: i64,
)
    requires
        s.wf(),
        first.id == second.id,
        s.can_upsert(first.id),
    ensures
        occurrences(
            object_keys(
                s.upsert_object(first, kind, when).upsert_object(second, kind, when).objects,
            ),
            first.id,
        ) == 1,
{
    s.lemma_upsert_object(first, kind, when);
    let once = s.upsert_object(first, kind, when);
    once.lemma_upsert_object(second, kind, when);
    lemma_occurrences_distinct(object_keys(once.upsert_object(second, kind, when).objects), first.id);
}

/// A handler that ran once changes nothing when it runs again on the same
/// activity, and answers without error if it did so the first time.
pub proof fn law_handlers_idempotent(s: StoreView, a: Activity)
    requires
        s.wf(),
    ensures
        spec_dispatch_direct(spec_dispatch_direct(s, a).store, a).store == spec_dispatch_direct(
            s,
            a,
        ).store,
        spec_dispatch_direct(s, a).result.is_ok() ==> spec_dispatch_direct(
            spec_dispatch_direct(s, a).store,
            a,
        ).result.is_ok(),
{
    let first = spec_dispatch_direct(s, a);
    let second = spec_dispatch_direct(first.store, a);
    lemma_dispatch_direct_wf(s, a);
    match a.kind.known() {
        Some(ValidTypes::Create) => {
            lemma_create_idempotent(s, a);
        },
        Some(ValidTypes::Update) => {
            lemma_update_idempotent(s, a);
        },
        Some(ValidTypes::Like) => {
            lemma_vote_idempotent(s, a, 1);
        },
        Some(ValidTypes::Dislike) => {
            lemma_vote_idempotent(s, a, -1i8);
        },
        Some(ValidTypes::Delete) => {
            lemma_delete_idempotent(s, a);
        },
        Some(ValidTypes::Remove) => {
            lemma_remove_idempotent(s, a);
        },
        Some(ValidTypes::Undo) => {
            lemma_undo_idempotent(s, a);
        },
        _ => {},
    }
}

proof fn lemma_create_idempotent(s: StoreView, a: Activity)
    requires
        s.wf(),
    ensures
        spec_receive_create(spec_receive_create(s, a).store, a).store == spec_receive_create(
            s,
            a,
        ).store,
        spec_receive_create(s, a).result.is_ok() ==> spec_receive_create(
            spec_receive_create(s, a).store,
            a,
        ).result.is_ok(),
{
    match a.body {
        ActivityBody::Object(doc) => {
            let kind = spec_object_kind(doc.kind@);
            if kind.is_some() {
                let k = kind.unwrap();
                s.lemma_upsert_object(doc@, k, a.updated);
                let first = s.upsert_object(doc@, k, a.updated);
                let again = first.upsert_object(doc@, k, a.updated);
                assert(again.objects =~= first.objects);
            }
        },
        _ => {},
    }
}

proof fn lemma_update_idempotent(s: StoreView, a: Activity)
    requires
        s.wf(),
    ensures
        spec_receive_update(spec_receive_update(s, a).store, a).store == spec_receive_update(
            s,
            a,
        ).store,
        spec_receive_update(s, a).result.is_ok() ==> spec_receive_update(
            spec_receive_update(s, a).store,
            a,
        ).result.is_ok(),
{
    match a.body {
        ActivityBody::Object(doc) => {
            let kind = spec_object_kind(doc.kind@);
            if kind.is_some() {
                let k = kind.unwrap();
                s.lemma_upsert_object(doc@, k, a.updated);
                let first = s.upsert_object(doc@, k, a.updated);
                let again = first.upsert_object(doc@, k, a.updated);
                assert(again.objects =~= first.objects);
            }
        },
        _ => {},
    }
}

proof fn lemma_delete_idempotent(s: StoreView, a: Activity)
    requires
        s.wf(),
    ensures
        spec_receive_delete(spec_receive_delete(s, a).store, a).store == spec_receive_delete(
            s,
            a,
        ).store,
        spec_receive_delete(s, a).result.is_ok() ==> spec_receive_delete(
            spec_receive_delete(s, a).store,
            a,
        ).result.is_ok(),
{
    match a.body.target() {
        Some(uri) => {
            s.lemma_set_flags(uri, true, a.updated);
            let first = s.set_deleted(uri, true, a.updated);
            let again = first.set_deleted(uri, true, a.updated);
            assert(again.objects =~= first.objects);
        },
        None => {},
    }
}

proof fn lemma_remove_idempotent(s: StoreView, a: Activity)
    requires
        s.wf(),
    ensures
        spec_receive_remove(spec_receive_remove(s, a).store, a).store == spec_receive_remove(
            s,
            a,
        ).store,
        spec_receive_remove(s, a).result.is_ok() ==> spec_receive_remove(
            spec_receive_remove(s, a).store,
            a,
        ).result.is_ok(),
{
    match a.body.target() {
        Some(uri) => {
            s.lemma_set_flags(uri, true, a.updated);
            let first = s.set_removed(uri, true, a.updated);
            let again = first.set_removed(uri, true, a.updated);
            assert(again.objects =~= first.objects);
        },
        None => {},
    }
}

proof fn lemma_vote_idempotent(s: StoreView, a: Activity, score: i8)
    requires
        s.wf(),
    ensures
        spec_receive_vote(spec_receive_vote(s, a, score).store, a, score).store
            == spec_receive_vote(s, a, score).store,
        spec_receive_vote(s, a, score).result.is_ok() ==> spec_receive_vote(
            spec_receive_vote(s, a, score).store,
            a,
            score,
        ).result.is_ok(),
{
    match a.body.target() {
        Some(uri) => {
            match s.object(uri) {
                Some(o) => {
                    s.lemma_upsert_reaction(o.id, a.actor@, score);
                    let first = s.upsert_reaction(o.id, a.actor@, score);
                    let again = first.upsert_reaction(o.id, a.actor@, score);
                    assert(again.reactions =~= first.reactions);
                },
                None => {},
            }
        },
        None => {},
    }
}

proof fn lemma_undo_idempotent(s: StoreView, a: Activity)
    requires
        s.wf(),
    ensures
        spec_receive_undo(spec_receive_undo(s, a).store, a).store == spec_receive_undo(
            s,
            a,
        ).store,
        spec_receive_undo(s, a).result.is_ok() ==> spec_receive_undo(
            spec_receive_undo(s, a).store,
            a,
        ).result.is_ok(),
{
    match a.body {
        ActivityBody::Activity(inner) => {
            match inner.body.target() {
                Some(uri) => {
                    s.lemma_set_flags(uri, false, a.updated);
                    let d = s.set_deleted(uri, false, a.updated);
                    assert(d.set_deleted(uri, false, a.updated).objects =~= d.objects);
                    let r = s.set_removed(uri, false, a.updated);
                    assert(r.set_removed(uri, false, a.updated).objects =~= r.objects);
                    match s.object(uri) {
                        Some(o) => {
                            s.lemma_remove_reaction(o.id, inner.actor@);
                        },
                        None => {},
                    }
                },
                None => {},
            }
        },
        _ => {},
    }
}

/// A `Create` whose actor is on another domain than the object it carries
/// is turned down and changes nothing.
pub proof fn law_create_same_origin(s: StoreView, a: Activity)
    requires
        a.kind.known() == Some(ValidTypes::Create),
        a.body is Object,
        !same_origin(a.actor@, a.body->Object_0.id@),
    ensures
        spec_dispatch(s, a).store == s,
        spec_dispatch(s, a).result.is_err(),
        spec_object_kind(a.body->Object_0.kind@).is_some() ==> spec_dispatch(s, a).result == Err::<Receipt, HandlerError>(HandlerError::OriginMismatch),
{
}

/// The flags of `Update` and `Delete` obey the same rule: an actor on
/// another domain than the object changes nothing.
pub proof fn law_update_delete_same_origin(s: StoreView, a: Activity)
    requires
        a.kind.known() == Some(ValidTypes::Update) || a.kind.known() == Some(ValidTypes::Delete),
        a.body.target().is_some(),
        !same_origin(a.actor@, a.body.target().unwrap()),
    ensures
        spec_dispatch(s, a).store == s,
        spec_dispatch(s, a).result.is_err(),
{
}

/// A relayed activity is handled as the activity itself would be: an
/// `Announce` changes the store and answers as the handler of the relayed
/// activity does. Where what is relayed is of a type that is not
/// recognized, is itself an `Announce`, or is no activity at all, nothing
/// changes and the answer is that of an activity nobody acts on.
pub proof fn law_relay_is_dispatch(s: StoreView, a: Activity)
    requires
        a.kind.known() == Some(ValidTypes::Announce),
    ensures
        a.body is Activity ==> spec_dispatch(s, a) == spec_dispatch_direct(s, *a.body->Activity_0),
        !(a.body is Activity) || a.body->Activity_0.kind.known().is_none()
            || a.body->Activity_0.kind.known() == Some(ValidTypes::Announce) ==> spec_dispatch(
            s,
            a,
        ) == unchanged(s, Receipt::NotImplemented),
{
}

/// The dispatcher never touches the ledger.
pub proof fn law_dispatch_leaves_ledger(s: StoreView, a: Activity)
    requires
        s.wf(),
    ensures
        spec_dispatch(s, a).store.ledger == s.ledger,
{
    lemma_direct_keeps_rows(s, a);
    match a.body {
        ActivityBody::Activity(inner) => {
            lemma_direct_keeps_rows(s, *inner);
        },
        _ => {},
    }
}

/// An activity of a type that is not recognized is acknowledged and
/// changes nothing.
pub proof fn law_unknown_type_tolerated(s: StoreView, a: Activity)
    requires
        a.kind.known().is_none(),
    ensures
        spec_dispatch(s, a) == unchanged(s, Receipt::NotImplemented),
{
}

/// An `Update` that is well formed for the store: it carries an object of
/// a kind that is stored, from the actor's own domain.
pub open spec fn valid_update(a: Activity) -> bool {
    &&& a.body is Object
    &&& spec_object_kind(a.body->Object_0.kind@).is_some()
    &&& same_origin(a.actor@, a.body->Object_0.id@)
    &&& same_origin(a.actor@, a.body->Object_0.attributed_to@)
}

/// Last write wins: two updates of one object, applied in either order,
/// leave the same store, and the object then holds what the update with
/// the later declared time says.
pub proof fn law_last_write_wins(s: StoreView, early: Activity, late: Activity)
    requires
        s.wf(),
        valid_update(early),
        valid_update(late),
        early.body->Object_0.id@ == late.body->Object_0.id@,
        early.updated < late.updated,
        s.can_upsert(late.body->Object_0.id@),
        s.has_object(late.body->Object_0.id@) ==> s.object(late.body->Object_0.id@).unwrap().updated
            <= late.updated,
    ensures
        spec_receive_update(spec_receive_update(s, early).store, late).store
            == spec_receive_update(spec_receive_update(s, late).store, early).store,
        ({
            let last = spec_receive_update(spec_receive_update(s, late).store, early).store;
            let doc = late.body->Object_0@;
            let kind = spec_object_kind(doc.kind).unwrap();
            &&& last.has_object(doc.id)
            &&& last.object(doc.id).unwrap().content == doc.content
            &&& last.object(doc.id).unwrap().owner == doc.attributed_to
            &&& last.object(doc.id).unwrap().parent == doc.parent
            &&& last.object(doc.id).unwrap().kind == kind
            &&& last.object(doc.id).unwrap().updated == late.updated
        }),
{
    let d1 = early.body->Object_0@;
    let d2 = late.body->Object_0@;
    let k1 = spec_object_kind(d1.kind).unwrap();
    let k2 = spec_object_kind(d2.kind).unwrap();
    let id = d2.id;
    s.lemma_upsert_object(d1, k1, early.updated);
    s.lemma_upsert_object(d2, k2, late.updated);
    let s_late = s.upsert_object(d2, k2, late.updated);
    s_late.lemma_upsert_object(d1, k1, early.updated);
    assert(spec_receive_update(s, late).store == s_late);
    assert(spec_receive_update(s_late, early).store == s_late);
    let a1 = spec_receive_update(s, early).store;
    if s.has_object(id) && s.object(id).unwrap().updated > early.updated {
        assert(a1 == s);
    } else {
        let s_early = s.upsert_object(d1, k1, early.updated);
        assert(a1 == s_early);
        s_early.lemma_upsert_object(d2, k2, late.updated);
        let both = s_early.upsert_object(d2, k2, late.updated);
        assert(both.objects =~= s_late.objects);
    }
}

/// A vote that the handler accepts: the activity is a `Like` or a
/// `Dislike` of a stored post or comment.
pub open spec fn vote_applies(s: StoreView, a: Activity) -> bool {
    &&& a.kind.known() == Some(ValidTypes::Like) || a.kind.known() == Some(ValidTypes::Dislike)
    &&& a.body.target().is_some()
    &&& s.has_object(a.body.target().unwrap())
    &&& is_content(Some(s.object(a.body.target().unwrap()).unwrap().kind))
}

/// What the vote counts: `1` for a `Like`, `-1` for a `Dislike`.
pub open spec fn vote_score(a: Activity) -> i8 {
    if a.kind.known() == Some(ValidTypes::Like) {
        1
    } else {
        -1i8
    }
}

/// One reaction per actor and object: after two votes of one actor on one
/// object there is exactly one reaction row for the pair, and it holds
/// the later vote.
pub proof fn law_reaction_unique(
    s: StoreView,
    first: Activity,
    second: Activity,
    payload: Seq<char>,
    now: i64,
)
    requires
        s.wf(),
        vote_applies(s, first),
        vote_applies(s, second),
        first.actor@ == second.actor@,
        first.body.target() == second.body.target(),
    ensures
        ({
            let last = spec_handle(
                spec_handle(s, first, payload, now).store,
                second,
                payload,
                now,
            ).store;
            let o = s.object(first.body.target().unwrap()).unwrap();
            &&& occurrences(reaction_keys(last.reactions), (o.id, first.actor@)) == 1
            &&& last.reaction(o.id, first.actor@) == Some(vote_score(second))
        }),
{
    let uri = first.body.target().unwrap();
    let o = s.object(uri).unwrap();
    let actor = first.actor@;
    let s1 = spec_handle(s, first, payload, now).store;
    lemma_handle_wf(s, first, payload, now);
    s.lemma_upsert_reaction(o.id, actor, vote_score(first));
    assert(s1.objects == s.objects);
    assert(s1.object(uri) == Some(o));
    let s2 = spec_handle(s1, second, payload, now).store;
    lemma_handle_wf(s1, second, payload, now);
    s1.lemma_upsert_reaction(o.id, actor, vote_score(second));
    assert(s2.reactions == s1.upsert_reaction(o.id, actor, vote_score(second)).reactions);
    lemma_occurrences_distinct(reaction_keys(s2.reactions), (o.id, actor));
}

/// Undo takes a vote back: after a vote and its `Undo` by the same actor
/// there is no reaction row for the actor and the object.
pub proof fn law_undo_inverts_like(
    s: StoreView,
    like: Activity,
    undo: Activity,
    payload: Seq<char>,
    now: i64,
)
    requires
        s.wf(),
        vote_applies(s, like),
        undo.kind.known() == Some(ValidTypes::Undo),
        undo.body is Activity,
        *undo.body->Activity_0 == like,
        undo.actor@ == like.actor@,
    ensures
        ({
            let last = spec_handle(spec_handle(s, like, payload, now).store, undo, payload, now);
            let o = s.object(like.body.target().unwrap()).unwrap();
            &&& last.result.is_ok()
            &&& occurrences(reaction_keys(last.store.reactions), (o.id, like.actor@)) == 0
            &&& last.store.reaction(o.id, like.actor@).is_none()
            &&& last.store.objects == s.objects
        }),
{
    let uri = like.body.target().unwrap();
    let o = s.object(uri).unwrap();
    let actor = like.actor@;
    let s1 = spec_handle(s, like, payload, now).store;
    lemma_handle_wf(s, like, payload, now);
    s.lemma_upsert_reaction(o.id, actor, vote_score(like));
    assert(s1.objects == s.objects);
    assert(s1.object(uri) == Some(o));
    assert(s1.reactions == s.upsert_reaction(o.id, actor, vote_score(like)).reactions);
    assert(s1.reaction(o.id, actor).is_some());
    assert(s1.is_known(like.id@));
    let last = spec_handle(s1, undo, payload, now);
    lemma_handle_wf(s1, undo, payload, now);
    s1.lemma_remove_reaction(o.id, actor);
    assert(spec_undo_known(s1, like, undo.updated).store == s1.remove_reaction(o.id, actor));
    assert(last.store.reactions == s1.remove_reaction(o.id, actor).reactions);
    lemma_occurrences_distinct(reaction_keys(last.store.reactions), (o.id, actor));
}

/// Undo takes a vote back however the two arrive, directly or relayed by
/// an `Announce`: after a delivery that brings the vote and a delivery that
/// brings its `Undo` by the same actor, there is no reaction row for the
/// actor and the object.
pub proof fn law_undo_inverts_like_however_delivered(
    s: StoreView,
    like: Activity,
    undo: Activity,
    first: Activity,
    second: Activity,
    payload: Seq<char>,
    now: i64,
)
    requires
        s.wf(),
        vote_applies(s, like),
        undo.kind.known() == Some(ValidTypes::Undo),
        undo.body is Activity,
        *undo.body->Activity_0 == like,
        undo.actor@ == like.actor@,
        effective(first) == like,
        effective(second) == undo,
    ensures
        ({
            let last = spec_handle(spec_handle(s, first, payload, now).store, second, payload, now);
            let o = s.object(like.body.target().unwrap()).unwrap();
            &&& last.result.is_ok()
            &&& occurrences(reaction_keys(last.store.reactions), (o.id, like.actor@)) == 0
            &&& last.store.reaction(o.id, like.actor@).is_none()
            &&& last.store.objects == s.objects
        }),
{
    let uri = like.body.target().unwrap();
    let o = s.object(uri).unwrap();
    let actor = like.actor@;
    assert(spec_dispatch(s, first) == spec_dispatch_direct(s, like));
    let s1 = spec_handle(s, first, payload, now).store;
    lemma_handle_wf(s, first, payload, now);
    s.lemma_upsert_reaction(o.id, actor, vote_score(like));
    assert(s1.objects == s.objects);
    assert(s1.object(uri) == Some(o));
    assert(s1.reactions == s.upsert_reaction(o.id, actor, vote_score(like)).reactions);
    assert(s1.reaction(o.id, actor).is_some());
    assert(s1.is_known(like.id@));
    assert(spec_dispatch(s1, second) == spec_dispatch_direct(s1, undo));
    let last = spec_handle(s1, second, payload, now);
    lemma_handle_wf(s1, second, payload, now);
    s1.lemma_remove_reaction(o.id, actor);
    assert(spec_undo_known(s1, like, undo.updated).store == s1.remove_reaction(o.id, actor));
    assert(last.store.reactions == s1.remove_reaction(o.id, actor).reactions);
    lemma_occurrences_distinct(reaction_keys(last.store.reactions), (o.id, actor));
}

/// `Undo` of an activity that was never seen is acknowledged and changes
/// nothing.
pub proof fn law_undo_of_unseen(s: StoreView, undo: Activity)
    requires
        undo.kind.known() == Some(ValidTypes::Undo),
        undo.body is Activity,
        !s.is_known(undo.body->Activity_0.id@),
    ensures
        spec_dispatch(s, undo) == unchanged(s, Receipt::NoOp),
{
}

} // verus!
