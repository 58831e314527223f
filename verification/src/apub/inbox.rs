//! The inbox gateway: the entry point for activities that other servers
//! deliver.

use vstd::prelude::*;
use crate::apub::dispatch::{effective, effective_activity, handle, spec_handle};
use crate::apub::fetcher::{
    lemma_resolve, resolve, spec_resolve, FederationConfig, Fetched, ResolveError,
};
use crate::apub::handlers::{
    is_content, spec_created_op, target_of, HandlerError, Notification, Receipt,
};
use crate::apub::laws::lemma_handle_wf;
use crate::apub::model::{
    spec_object_kind, Activity, ActivityBody, ActivityKind, ObjectDoc, ObjectKind, ValidTypes,
};
use crate::apub::origin::{check_same_origin, parse_domain, same_origin, url_domain};
use crate::apub::signature::{spec_verify, verify, SignedRequest, VerificationError};
use crate::apub::state::{object_keys, StoreView};
use crate::apub::store::Store;
use crate::rows::{lemma_first_index, lemma_occurrences_distinct, occurrences};

verus! {

/// A delivery to the inbox.
#[derive(Debug)]
pub struct InboxRequest {
    /// Method, path, headers, body and signature of the HTTP request.
    pub request: SignedRequest,
    /// The activity the body holds; `None` where the body could not be
    /// read as an activity.
    pub activity: Option<Activity>,
}

/// How the gateway answers a delivery.
#[derive(Clone, Copy, Debug, PartialEq, Eq, Structural)]
pub enum InboxResponse {
    /// `200`: processed, or seen before.
    Success,
    /// `400`: the body is no well-formed activity.
    BadRequest,
    /// `401`: the actor may not federate, or the signature does not hold.
    Unauthorized,
    /// `501`: well formed, but of a type that is not acted on.
    NotImplemented,
    /// `502`: the actor's server could not be asked, or answered nonsense.
    BadGateway,
    /// No answer yet: the caller fetches the document of the activity's
    /// actor and delivers again with it.
    FetchActor,
    /// No answer yet: the caller fetches the document of the object voted
    /// on and delivers again with it.
    FetchObject,
}

impl InboxResponse {
    /// The HTTP status of the answer.
    pub open spec fn spec_status(self) -> Option<u16> {
        match self {
            InboxResponse::Success => Some(200),
            InboxResponse::BadRequest => Some(400),
            InboxResponse::Unauthorized => Some(401),
            InboxResponse::NotImplemented => Some(501),
            InboxResponse::BadGateway => Some(502),
            InboxResponse::FetchActor => None,
            InboxResponse::FetchObject => None,
        }
    }

    /// The HTTP status of the answer; none while a fetch is asked for.
    pub fn status(self) -> (r: Option<u16>)
        ensures
            r == self.spec_status(),
    {
        match self {
            InboxResponse::Success => Some(200),
            InboxResponse::BadRequest => Some(400),
            InboxResponse::Unauthorized => Some(401),
            InboxResponse::NotImplemented => Some(501),
            InboxResponse::BadGateway => Some(502),
            InboxResponse::FetchActor => None,
            InboxResponse::FetchObject => None,
        }
    }
}

/// What a delivery came to.
#[derive(Clone, Copy, Debug, PartialEq, Eq, Structural)]
pub struct InboxOutcome {
    pub response: InboxResponse,
    /// What local clients are to be told.
    pub notification: Option<Notification>,
    /// Why the handler turned the activity down. The sender is not told:
    /// it has delivered.
    pub error: Option<HandlerError>,
}

/// State after a delivery and what it came to.
pub ghost struct InboxStep {
    pub store: StoreView,
    pub outcome: InboxOutcome,
}

/// An answer that tells local clients nothing.
pub open spec fn answer(s: StoreView, response: InboxResponse) -> InboxStep {
    InboxStep { store: s, outcome: InboxOutcome { response, notification: None, error: None } }
}

/// An activity is well formed when its id is a URI that names a domain.
/// Whether its actor is one that may be heard is for the resolver to say.
pub open spec fn well_formed(a: Activity) -> bool {
    url_domain(a.id@).is_some()
}

/// Decides whether an activity is well formed.
pub fn check_well_formed(a: &Activity) -> (r: bool)
    ensures
        r == well_formed(*a),
{
    parse_domain(a.id.as_str()).is_some()
}

/// The outcome that reports what the handler answered. A handler's
/// refusal is not the sender's concern.
pub open spec fn outcome_of(result: Result<Receipt, HandlerError>) -> InboxOutcome {
    match result {
        Ok(Receipt::Applied(n)) => InboxOutcome {
            response: InboxResponse::Success,
            notification: Some(n),
            error: None,
        },
        Ok(Receipt::NoOp) => InboxOutcome {
            response: InboxResponse::Success,
            notification: None,
            error: None,
        },
        Ok(Receipt::NotImplemented) => InboxOutcome {
            response: InboxResponse::NotImplemented,
            notification: None,
            error: None,
        },
        Err(e) => InboxOutcome { response: InboxResponse::Success, notification: None, error: Some(e) },
    }
}

/// The outcome that reports what the handler answered.
pub fn make_outcome(result: Result<Receipt, HandlerError>) -> (r: InboxOutcome)
    ensures
        r == outcome_of(result),
{
    match result {
        Ok(Receipt::Applied(n)) => InboxOutcome {
            response: InboxResponse::Success,
            notification: Some(n),
            error: None,
        },
        Ok(Receipt::NoOp) => InboxOutcome {
            response: InboxResponse::Success,
            notification: None,
            error: None,
        },
        Ok(Receipt::NotImplemented) => InboxOutcome {
            response: InboxResponse::NotImplemented,
            notification: None,
            error: None,
        },
        Err(e) => InboxOutcome { response: InboxResponse::Success, notification: None, error: Some(e) },
    }
}

/// How a fetch of an object document ended.
#[derive(Debug)]
pub enum FetchedObject {
    /// The server answered with this document.
    Object(ObjectDoc),
    /// The document could not be had.
    Unavailable,
}

/// The object whose document is wanted before the activity is
/// dispatched: the target of a vote, if it is not stored.
pub open spec fn needed_object(s: StoreView, a: Activity) -> Option<Seq<char>> {
    let e = effective(a);
    if (e.kind.known() == Some(ValidTypes::Like) || e.kind.known() == Some(ValidTypes::Dislike))
        && e.body.target().is_some() && !s.has_object(e.body.target().unwrap()) {
        e.body.target()
    } else {
        None
    }
}

/// URI of the object whose document is to be fetched before the activity
/// can be dispatched, if there is one.
pub fn wanted_object<'a>(store: &Store, a: &'a Activity) -> (r: Option<&'a String>)
    ensures
        match r {
            Some(uri) => needed_object(store@, *a) == Some(uri@),
            None => needed_object(store@, *a).is_none(),
        },
{
    let e = effective_activity(a);
    match &e.kind {
        ActivityKind::Known(ValidTypes::Like) | ActivityKind::Known(ValidTypes::Dislike) => {
            match target_of(&e.body) {
                Some(uri) => if store.locate(uri).is_none() {
                    Some(uri)
                } else {
                    None
                },
                None => None,
            }
        },
        _ => None,
    }
}

/// A fetched document can be stored for `uri`: it is the document of that
/// object, a post or a comment, attributed to an actor of its own domain.
pub open spec fn usable_object(doc: ObjectDoc, uri: Seq<char>) -> bool {
    doc.id@ == uri && is_content(spec_object_kind(doc.kind@)) && same_origin(
        doc.id@,
        doc.attributed_to@,
    )
}

/// The store after a fetched object document was taken in.
pub open spec fn with_fetched_object(s: StoreView, uri: Seq<char>, fetched: FetchedObject)
    -> StoreView {
    match fetched {
        FetchedObject::Object(doc) => if usable_object(doc, uri) && s.can_upsert(uri) {
            s.upsert_object(doc@, spec_object_kind(doc.kind@).unwrap(), doc.published)
        } else {
            s
        },
        FetchedObject::Unavailable => s,
    }
}

/// Stores a fetched object document, if it is the one asked for and can
/// be stored.
pub fn store_fetched_object(store: &mut Store, uri: &String, fetched: &FetchedObject)
    requires
        old(store)@.wf(),
    ensures
        final(store)@.wf(),
        final(store)@ == with_fetched_object(old(store)@, uri@, *fetched),
{
    match fetched {
        FetchedObject::Object(doc) => {
            let kind = match ObjectKind::from_name(&doc.kind) {
                Some(ObjectKind::Post) => ObjectKind::Post,
                Some(ObjectKind::Comment) => ObjectKind::Comment,
                _ => {
                    return ;
                },
            };
            if doc.id == *uri && check_same_origin(doc.id.as_str(), doc.attributed_to.as_str()) {
                let _ = store.upsert_object(doc, kind, doc.published);
            }
        },
        FetchedObject::Unavailable => {},
    }
}

/// The answer once actor and signature are in order: dispatch and record.
pub open spec fn spec_process(s: StoreView, a: Activity, payload: Seq<char>, now: i64)
    -> InboxStep {
    let step = spec_handle(s, a, payload, now);
    InboxStep { store: step.store, outcome: outcome_of(step.result) }
}

/// The gateway, step by step: a body that is no activity is refused; an
/// activity on the ledger is acknowledged and not looked at again,
/// whatever else the delivery holds; an activity whose id is no URI is
/// refused; the actor is resolved; the signature is checked against the
/// actor's key, once more against a freshly fetched key if the cached one
/// does not fit; the document of a voted-on object that is not stored is
/// asked for and taken in; the activity is dispatched and recorded.
pub open spec fn spec_shared_inbox(
    s: StoreView,
    cfg: FederationConfig,
    input: InboxRequest,
    now: i64,
    fetched: Option<Fetched>,
    fetched_object: Option<FetchedObject>,
) -> InboxStep {
    match input.activity {
        None => answer(s, InboxResponse::BadRequest),
        Some(a) => {
            if s.is_known(a.id@) {
                answer(s, InboxResponse::Success)
            } else if !well_formed(a) {
                answer(s, InboxResponse::BadRequest)
            } else {
                let resolved = spec_resolve(s, cfg, a.actor@, now, fetched);
                match resolved.result {
                    Err(ResolveError::InvalidActor) => answer(
                        s,
                        InboxResponse::Unauthorized,
                    ),
                    Err(_) => answer(s, InboxResponse::BadGateway),
                    Ok(None) => answer(s, InboxResponse::FetchActor),
                    Ok(Some(actor)) => match spec_verify(
                        input.request,
                        actor,
                        cfg.required_headers@,
                    ) {
                        Ok(()) => match needed_object(resolved.store, a) {
                            Some(uri) => match fetched_object {
                                None => answer(resolved.store, InboxResponse::FetchObject),
                                Some(f) => spec_process(
                                    with_fetched_object(resolved.store, uri, f),
                                    a,
                                    input.request.body@,
                                    now,
                                ),
                            },
                            None => spec_process(resolved.store, a, input.request.body@, now),
                        },
                        Err(VerificationError::MissingSignature) => answer(
                            resolved.store,
                            InboxResponse::Unauthorized,
                        ),
                        Err(_) => if fetched.is_none() && !actor.local {
                            answer(s, InboxResponse::FetchActor)
                        } else {
                            answer(resolved.store, InboxResponse::Unauthorized)
                        },
                    },
                }
            }
        },
    }
}

/// Handles one delivery to the shared inbox. `fetched` and
/// `fetched_object` are the outcomes of the fetches that the caller has
/// made for this delivery. The answer `FetchActor` leaves the store as it
/// was and asks the caller to fetch the document of the activity's actor
/// and to deliver again with it. The answer `FetchObject` asks the same
/// for the object named by `wanted_object`; it leaves objects, reactions
/// and ledger as they were.
pub fn shared_inbox(
    store: &mut Store,
    cfg: &FederationConfig,
    input: &InboxRequest,
    now: i64,
    fetched: Option<&Fetched>,
    fetched_object: Option<&FetchedObject>,
) -> (r: InboxOutcome)
    requires
        old(store)@.wf(),
    ensures
        final(store)@.wf(),
        final(store)@ == spec_shared_inbox(
            old(store)@,
            *cfg,
            *input,
            now,
            match fetched {
                Some(f) => Some(*f),
                None => None,
            },
            match fetched_object {
                Some(f) => Some(*f),
                None => None,
            },
        ).store,
        r == spec_shared_inbox(
            old(store)@,
            *cfg,
            *input,
            now,
            match fetched {
                Some(f) => Some(*f),
                None => None,
            },
            match fetched_object {
                Some(f) => Some(*f),
                None => None,
            },
        ).outcome,
{
    let blank = InboxOutcome { response: InboxResponse::Success, notification: None, error: None };
    let activity = match &input.activity {
        None => {
            return InboxOutcome { response: InboxResponse::BadRequest, ..blank };
        },
        Some(a) => a,
    };
    if store.is_known(&activity.id) {
        return blank;
    }
    if !check_well_formed(activity) {
        return InboxOutcome { response: InboxResponse::BadRequest, ..blank };
    }
    proof {
        lemma_resolve(
            store@,
            *cfg,
            activity.actor@,
            now,
            match fetched {
                Some(f) => Some(*f),
                None => None,
            },
        );
    }
    let actor = match resolve(store, cfg, &activity.actor, now, fetched) {
        Err(ResolveError::InvalidActor) => {
            return InboxOutcome { response: InboxResponse::Unauthorized, ..blank };
        },
        Err(_) => {
            return InboxOutcome { response: InboxResponse::BadGateway, ..blank };
        },
        Ok(None) => {
            return InboxOutcome { response: InboxResponse::FetchActor, ..blank };
        },
        Ok(Some(actor)) => actor,
    };
    match verify(&input.request, &actor, &cfg.required_headers) {
        Ok(()) => {
            match wanted_object(store, activity) {
                Some(uri) => match fetched_object {
                    None => {
                        return InboxOutcome { response: InboxResponse::FetchObject, ..blank };
                    },
                    Some(f) => {
                        store_fetched_object(store, uri, f);
                    },
                },
                None => {},
            }
            let res = handle(store, activity, &input.request.body, now);
            make_outcome(res)
        },
        Err(VerificationError::MissingSignature) => InboxOutcome {
            response: InboxResponse::Unauthorized,
            ..blank
        },
        Err(_) => {
            if fetched.is_none() && !actor.local {
                InboxOutcome { response: InboxResponse::FetchActor, ..blank }
            } else {
                InboxOutcome { response: InboxResponse::Unauthorized, ..blank }
            }
        },
    }
}

/// What is on the ledger is acknowledged and not looked at again: a
/// delivery of an activity whose id is on the ledger is answered with
/// `200` and changes nothing, whatever its actor, its signature and its
/// body are.
pub proof fn law_known_is_acknowledged(
    s: StoreView,
    cfg: FederationConfig,
    input: InboxRequest,
    now: i64,
    fetched: Option<Fetched>,
    fetched_object: Option<FetchedObject>,
)
    requires
        input.activity.is_some(),
        s.is_known(input.activity.unwrap().id@),
    ensures
        spec_shared_inbox(s, cfg, input, now, fetched, fetched_object) == answer(
            s,
            InboxResponse::Success,
        ),
{
}

/// Delivering twice is harmless: once a delivery has been answered with
/// `200` or `501`, every later delivery of the same activity is answered
/// with `200`, tells local clients nothing and leaves the store as it is.
pub proof fn law_redelivery_is_harmless(
    s: StoreView,
    cfg: FederationConfig,
    input: InboxRequest,
    now: i64,
    fetched: Option<Fetched>,
    fetched_object: Option<FetchedObject>,
    later: i64,
    fetched_later: Option<Fetched>,
    fetched_object_later: Option<FetchedObject>,
)
    requires
        s.wf(),
        spec_shared_inbox(s, cfg, input, now, fetched, fetched_object).outcome.response
            == InboxResponse::Success || spec_shared_inbox(
            s,
            cfg,
            input,
            now,
            fetched,
            fetched_object,
        ).outcome.response == InboxResponse::NotImplemented,
    ensures
        spec_shared_inbox(
            spec_shared_inbox(s, cfg, input, now, fetched, fetched_object).store,
            cfg,
            input,
            later,
            fetched_later,
            fetched_object_later,
        ) == answer(
            spec_shared_inbox(s, cfg, input, now, fetched, fetched_object).store,
            InboxResponse::Success,
        ),
{
    let a = input.activity.unwrap();
    if !s.is_known(a.id@) {
        lemma_resolve(s, cfg, a.actor@, now, fetched);
        let resolved = spec_resolve(s, cfg, a.actor@, now, fetched);
        match (needed_object(resolved.store, a), fetched_object) {
            (Some(uri), Some(f)) => {
                lemma_with_fetched_object(resolved.store, uri, f);
                lemma_handle_wf(
                    with_fetched_object(resolved.store, uri, f),
                    a,
                    input.request.body@,
                    now,
                );
            },
            _ => {
                lemma_handle_wf(resolved.store, a, input.request.body@, now);
            },
        }
    }
}

/// A signed `Create` is stored once and told once: when an activity that
/// is not on the ledger creates an object of its actor's own domain, the
/// actor resolves and the signature is in order, and a local key is left,
/// the delivery is answered with `200` and no error, local clients are
/// told of the new object, the store holds exactly one row under the
/// object's URI, owned by the attributed actor, and the sender is in the
/// actor cache. Every later delivery of the same activity is answered
/// with `200`, tells nothing and changes nothing.
pub proof fn law_created_object_is_stored_once(
    s: StoreView,
    cfg: FederationConfig,
    input: InboxRequest,
    now: i64,
    fetched: Option<Fetched>,
    fetched_object: Option<FetchedObject>,
    later: i64,
    fetched_later: Option<Fetched>,
    fetched_object_later: Option<FetchedObject>,
)
    requires
        s.wf(),
        input.activity matches Some(a) && a.kind.known() == Some(ValidTypes::Create) && !s.is_known(
            a.id@,
        ) && well_formed(a) && (a.body matches ActivityBody::Object(doc) && spec_object_kind(
            doc.kind@,
        ).is_some() && same_origin(a.actor@, doc.id@) && same_origin(a.actor@, doc.attributed_to@)
            && s.can_upsert(doc.id@)) && (spec_resolve(
            s,
            cfg,
            a.actor@,
            now,
            fetched,
        ).result matches Ok(Some(actor)) && spec_verify(input.request, actor, cfg.required_headers@)
            is Ok),
    ensures
        ({
            let a = input.activity.unwrap();
            let doc = a.body->Object_0;
            let step = spec_shared_inbox(s, cfg, input, now, fetched, fetched_object);
            &&& step.store.wf()
            &&& step.outcome == (InboxOutcome {
                response: InboxResponse::Success,
                notification: Some(
                    Notification {
                        op: spec_created_op(spec_object_kind(doc.kind@).unwrap()),
                        object_id: step.store.stored_id(doc.id@),
                    },
                ),
                error: None,
            })
            &&& occurrences(object_keys(step.store.objects), doc.id@) == 1
            &&& step.store.object(doc.id@) matches Some(row) && row.ap_id == doc.id@ && row.owner
                == doc.attributed_to@ && row.content == doc.content@
            &&& step.store.actor(a.actor@).is_some()
            &&& spec_shared_inbox(
                step.store,
                cfg,
                input,
                later,
                fetched_later,
                fetched_object_later,
            ) == answer(step.store, InboxResponse::Success)
        }),
{
    let a = input.activity.unwrap();
    let doc = a.body->Object_0;
    lemma_resolve(s, cfg, a.actor@, now, fetched);
    let resolved = spec_resolve(s, cfg, a.actor@, now, fetched).store;
    assert(needed_object(resolved, a).is_none());
    assert(resolved.object_index(doc.id@) == s.object_index(doc.id@));
    assert(resolved.can_upsert(doc.id@));
    lemma_handle_wf(resolved, a, input.request.body@, now);
    let kind = spec_object_kind(doc.kind@).unwrap();
    resolved.lemma_upsert_object(doc@, kind, a.updated);
    let stored = resolved.upsert_object(doc@, kind, a.updated);
    let after = spec_shared_inbox(s, cfg, input, now, fetched, fetched_object).store;
    assert(after.objects == stored.objects);
    assert(after.actors == resolved.actors);
    lemma_occurrences_distinct(object_keys(after.objects), doc.id@);
    lemma_first_index(object_keys(after.objects), doc.id@);
    assert(object_keys(after.objects)[after.object_index(doc.id@)] == after.objects[after.object_index(
        doc.id@,
    )].ap_id);
}

/// Taking in a fetched object keeps the tables well formed and touches
/// nothing but the objects.
pub proof fn lemma_with_fetched_object(s: StoreView, uri: Seq<char>, fetched: FetchedObject)
    requires
        s.wf(),
    ensures
        with_fetched_object(s, uri, fetched).wf(),
        with_fetched_object(s, uri, fetched).actors == s.actors,
        with_fetched_object(s, uri, fetched).reactions == s.reactions,
        with_fetched_object(s, uri, fetched).ledger == s.ledger,
{
    match fetched {
        FetchedObject::Object(doc) => {
            if usable_object(doc, uri) {
                s.lemma_upsert_object(doc@, spec_object_kind(doc.kind@).unwrap(), doc.published);
            }
        },
        FetchedObject::Unavailable => {},
    }
}

/// A delivery that is refused, or that asks for a fetch, touches neither
/// objects nor reactions nor the ledger.
pub proof fn law_refusal_is_inert(
    s: StoreView,
    cfg: FederationConfig,
    input: InboxRequest,
    now: i64,
    fetched: Option<Fetched>,
    fetched_object: Option<FetchedObject>,
)
    requires
        s.wf(),
        spec_shared_inbox(s, cfg, input, now, fetched, fetched_object).outcome.response
            != InboxResponse::Success,
        spec_shared_inbox(s, cfg, input, now, fetched, fetched_object).outcome.response
            != InboxResponse::NotImplemented,
    ensures
        spec_shared_inbox(s, cfg, input, now, fetched, fetched_object).store.objects == s.objects,
        spec_shared_inbox(s, cfg, input, now, fetched, fetched_object).store.reactions
            == s.reactions,
        spec_shared_inbox(s, cfg, input, now, fetched, fetched_object).store.ledger == s.ledger,
        spec_shared_inbox(s, cfg, input, now, fetched, fetched_object).outcome.response
            == InboxResponse::FetchActor ==> spec_shared_inbox(
            s,
            cfg,
            input,
            now,
            fetched,
            fetched_object,
        ).store == s,
{
    match input.activity {
        Some(a) => {
            lemma_resolve(s, cfg, a.actor@, now, fetched);
        },
        None => {},
    }
}

} // verus!
