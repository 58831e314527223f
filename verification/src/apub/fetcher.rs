//! The actor cache: turning an actor URI into a usable actor record, and
//! deciding when the remote server has to be asked.

use vstd::prelude::*;
use crate::apub::model::{Actor, ActorView};
use crate::apub::origin::{parse_domain, url_domain};
use crate::apub::state::{actor_keys, StoreView};
use crate::apub::store::Store;
use crate::rows::lemma_first_index;
use crate::text::{clone_opt, is_listed, lists, opt_view};

verus! {

/// What the federation engine is configured with.
#[derive(Debug)]
pub struct FederationConfig {
    /// Domain of this server.
    pub hostname: String,
    /// Domains that may federate; empty when every domain may.
    pub allowed_instances: Vec<String>,
    /// Domains that may not federate.
    pub blocked_instances: Vec<String>,
    /// Seconds for which a cached remote actor is used without asking
    /// again.
    pub refresh_window: i64,
    /// Delivery attempts per target before an activity is dropped.
    pub max_attempts: u32,
    /// Seconds to wait after the first failed delivery attempt.
    pub backoff_base: i64,
    /// Headers that the signature of an incoming request has to cover;
    /// `(request-target)` stands for method and path.
    pub required_headers: Vec<String>,
}

/// Whether a domain may federate with this server.
pub open spec fn domain_admitted(cfg: FederationConfig, domain: Option<Seq<char>>) -> bool {
    match domain {
        Some(d) => !lists(cfg.blocked_instances@, d) && (cfg.allowed_instances@.len() == 0
            || lists(cfg.allowed_instances@, d)),
        None => false,
    }
}

/// Whether a URI is well formed and points at a domain that may federate.
pub open spec fn valid_apub_id(cfg: FederationConfig, uri: Seq<char>) -> bool {
    domain_admitted(cfg, url_domain(uri))
}

/// Decides whether a domain, as read from a URI, may federate.
pub fn check_domain_admitted(cfg: &FederationConfig, domain: &Option<String>) -> (r: bool)
    ensures
        r == domain_admitted(*cfg, opt_view(*domain)),
{
    match domain {
        Some(d) => !is_listed(&cfg.blocked_instances, d) && (cfg.allowed_instances.len() == 0
            || is_listed(&cfg.allowed_instances, d)),
        None => false,
    }
}

/// Whether a URI is well formed and points at a domain that may federate.
pub fn check_is_apub_id_valid(cfg: &FederationConfig, uri: &str) -> (r: bool)
    ensures
        r == valid_apub_id(*cfg, uri@),
{
    let domain = parse_domain(uri);
    check_domain_admitted(cfg, &domain)
}

/// An actor document as a remote server returned it.
#[derive(Debug)]
pub struct ActorDoc {
    pub id: String,
    pub name: String,
    pub public_key: String,
    pub inbox_url: String,
    pub shared_inbox_url: Option<String>,
}

/// How a fetch of an actor document ended.
#[derive(Debug)]
pub enum Fetched {
    /// The server answered with this document.
    Actor(ActorDoc),
    /// The server could not be reached, or did not answer in time.
    Failed,
    /// The server answered with something that is no actor document.
    Malformed,
}

/// Why an actor could not be resolved.
#[derive(Clone, Copy, Debug, PartialEq, Eq, Structural)]
pub enum ResolveError {
    /// The URI is malformed or points at a domain that may not federate.
    InvalidActor,
    /// The remote server could not be reached.
    FetchFailed,
    /// The remote server returned a document that cannot be used.
    MalformedActor,
}

/// A fetched document can be used for `uri`: it is the document of that
/// actor, and it has a public key and an inbox.
pub open spec fn usable_doc(doc: ActorDoc, uri: Seq<char>) -> bool {
    doc.id@ == uri && doc.public_key@.len() > 0 && doc.inbox_url@.len() > 0
}

/// The cache row of a remote actor fetched at `now`.
pub open spec fn actor_of_doc(doc: ActorDoc, now: i64) -> ActorView {
    ActorView {
        uri: doc.id@,
        name: doc.name@,
        public_key: doc.public_key@,
        private_key: None,
        inbox_url: doc.inbox_url@,
        shared_inbox_url: opt_view(doc.shared_inbox_url),
        local: false,
        last_refreshed_at: now,
    }
}

/// A cached actor can be used without asking its server: it is local, or
/// it was refreshed less than the refresh window ago.
pub open spec fn is_fresh(cfg: FederationConfig, actor: ActorView, now: i64) -> bool {
    actor.local || now - actor.last_refreshed_at < cfg.refresh_window
}

/// State after a resolution and what it gave: the actor, `None` where the
/// remote server has to be asked first, or an error.
pub ghost struct ResolveStep {
    pub store: StoreView,
    pub result: Result<Option<ActorView>, ResolveError>,
}

/// An actor hosted here is in the cache under this URI. Such an actor is
/// what the cache says; no document from the network stands in for it.
pub open spec fn cached_local(s: StoreView, uri: Seq<char>) -> bool {
    s.actor(uri).is_some() && s.actor(uri).unwrap().local
}

/// Resolution of an actor URI. An actor hosted here is taken from the
/// cache. For any other actor a fetched document, where one is given, goes
/// before the cache.
pub open spec fn spec_resolve(
    s: StoreView,
    cfg: FederationConfig,
    uri: Seq<char>,
    now: i64,
    fetched: Option<Fetched>,
) -> ResolveStep {
    if !valid_apub_id(cfg, uri) {
        ResolveStep { store: s, result: Err(ResolveError::InvalidActor) }
    } else if cached_local(s, uri) {
        ResolveStep { store: s, result: Ok(s.actor(uri)) }
    } else {
        match fetched {
            None => match s.actor(uri) {
                Some(actor) => if is_fresh(cfg, actor, now) {
                    ResolveStep { store: s, result: Ok(Some(actor)) }
                } else {
                    ResolveStep { store: s, result: Ok(None) }
                },
                None => ResolveStep { store: s, result: Ok(None) },
            },
            Some(Fetched::Failed) => ResolveStep {
                store: s,
                result: Err(ResolveError::FetchFailed),
            },
            Some(Fetched::Malformed) => ResolveStep {
                store: s,
                result: Err(ResolveError::MalformedActor),
            },
            Some(Fetched::Actor(doc)) => if usable_doc(doc, uri) {
                let after = s.upsert_actor(actor_of_doc(doc, now));
                ResolveStep { store: after, result: Ok(after.actor(uri)) }
            } else {
                ResolveStep { store: s, result: Err(ResolveError::MalformedActor) }
            },
        }
    }
}

/// Resolving keeps the tables well formed, and a resolved actor is in the
/// cache under the URI asked for.
pub proof fn lemma_resolve(
    s: StoreView,
    cfg: FederationConfig,
    uri: Seq<char>,
    now: i64,
    fetched: Option<Fetched>,
)
    requires
        s.wf(),
    ensures
        spec_resolve(s, cfg, uri, now, fetched).store.wf(),
        spec_resolve(s, cfg, uri, now, fetched).result matches Ok(Some(a)) ==> spec_resolve(
            s,
            cfg,
            uri,
            now,
            fetched,
        ).store.actor(uri) == Some(a) && a.uri == uri,
        fetched.is_none() || cached_local(s, uri) ==> spec_resolve(s, cfg, uri, now, fetched).store
            == s,
        !(spec_resolve(s, cfg, uri, now, fetched).result matches Ok(Some(_))) ==> spec_resolve(
            s,
            cfg,
            uri,
            now,
            fetched,
        ).store == s,
        spec_resolve(s, cfg, uri, now, fetched).store.objects == s.objects,
        spec_resolve(s, cfg, uri, now, fetched).store.reactions == s.reactions,
        spec_resolve(s, cfg, uri, now, fetched).store.ledger == s.ledger,
        spec_resolve(s, cfg, uri, now, fetched).store.next_id == s.next_id,
{
    lemma_first_index(actor_keys(s.actors), uri);
    match fetched {
        Some(Fetched::Actor(doc)) => {
            s.lemma_upsert_actor(actor_of_doc(doc, now));
            let after = s.upsert_actor(actor_of_doc(doc, now));
            lemma_first_index(actor_keys(after.actors), doc.id@);
        },
        _ => {},
    }
}

/// Resolves an actor URI against the cache. `fetched` is the outcome of a
/// fetch of the actor's document, where the caller has made one. An actor
/// hosted here is returned as the cache has it. For any other actor:
/// without a fetch, a cached actor is returned while it is fresh, and
/// `Ok(None)` asks the caller to fetch the document and come back; with
/// one, the document is stored in the cache and the stored actor is
/// returned.
pub fn resolve(
    store: &mut Store,
    cfg: &FederationConfig,
    uri: &String,
    now: i64,
    fetched: Option<&Fetched>,
) -> (r: Result<Option<Actor>, ResolveError>)
    requires
        old(store)@.wf(),
    ensures
        final(store)@.wf(),
        final(store)@ == spec_resolve(
            old(store)@,
            *cfg,
            uri@,
            now,
            match fetched {
                Some(f) => Some(*f),
                None => None,
            },
        ).store,
        (match r {
            Ok(Some(a)) => Ok(Some(a@)),
            Ok(None) => Ok(None),
            Err(e) => Err(e),
        }) == spec_resolve(
            old(store)@,
            *cfg,
            uri@,
            now,
            match fetched {
                Some(f) => Some(*f),
                None => None,
            },
        ).result,
{
    proof {
        lemma_resolve(
            store@,
            *cfg,
            uri@,
            now,
            match fetched {
                Some(f) => Some(*f),
                None => None,
            },
        );
    }
    if !check_is_apub_id_valid(cfg, uri.as_str()) {
        return Err(ResolveError::InvalidActor);
    }
    if let Some(actor) = store.actor(uri) {
        if actor.local {
            return Ok(Some(actor.duplicate()));
        }
    }
    match fetched {
        None => match store.actor(uri) {
            Some(actor) => {
                if actor.local || (now as i128) - (actor.last_refreshed_at as i128) < (
                cfg.refresh_window as i128) {
                    Ok(Some(actor.duplicate()))
                } else {
                    Ok(None)
                }
            },
            None => Ok(None),
        },
        Some(Fetched::Failed) => Err(ResolveError::FetchFailed),
        Some(Fetched::Malformed) => Err(ResolveError::MalformedActor),
        Some(Fetched::Actor(doc)) => {
            if doc.id != *uri || doc.public_key.as_str().unicode_len() == 0
                || doc.inbox_url.as_str().unicode_len() == 0 {
                return Err(ResolveError::MalformedActor);
            }
            store.upsert_actor(
                Actor {
                    uri: doc.id.clone(),
                    name: doc.name.clone(),
                    public_key: doc.public_key.clone(),
                    private_key: None,
                    inbox_url: doc.inbox_url.clone(),
                    shared_inbox_url: clone_opt(&doc.shared_inbox_url),
                    local: false,
                    last_refreshed_at: now,
                },
            );
            match store.actor(uri) {
                Some(actor) => Ok(Some(actor.duplicate())),
                None => Ok(None),
            }
        },
    }
}

} // verus!
