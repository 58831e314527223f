//! Communities as relays: an activity that concerns a community hosted
//! here is announced to the community's followers.

use vstd::prelude::*;
use crate::apub::activities::send_lemmy_activity;
use crate::apub::activity_queue::{DeliveryError, DeliveryQueue};
use crate::apub::dispatch::record_of;
use crate::apub::model::{Activity, Actor, ActorView};
use crate::apub::state::StoreView;
use crate::apub::store::Store;
use crate::rows::first_occurrences;
use crate::text::{replace, spec_replace, texts};

verus! {

/// The followers collection of the community an activity concerns: the
/// first entry of its `cc`.
pub fn get_community_id_from_activity(activity: &Activity) -> (r: Option<&String>)
    ensures
        match r {
            Some(uri) => activity.cc@.len() > 0 && uri == activity.cc@[0],
            None => activity.cc@.len() == 0,
        },
{
    if activity.cc.len() > 0 {
        Some(&activity.cc[0])
    } else {
        None
    }
}

/// URI of the community that a followers collection belongs to.
pub open spec fn spec_community_uri(followers_uri: Seq<char>) -> Seq<char> {
    spec_replace(followers_uri, "/followers"@, Seq::empty())
}

/// URI of the community that a followers collection belongs to.
pub fn community_uri(followers_uri: &str) -> (r: String)
    ensures
        r@ == spec_community_uri(followers_uri@),
{
    proof {
        reveal_strlit("");
        assert(""@ =~= Seq::<char>::empty());
    }
    replace(followers_uri, "/followers", "")
}

/// The community on whose behalf an activity is to be announced: the
/// community the activity is addressed to, if it is cached and hosted
/// here.
pub open spec fn spec_announcing_community(actors: StoreView, a: Activity)
    -> Option<ActorView> {
    if a.cc@.len() == 0 {
        None
    } else {
        match actors.actor(spec_community_uri(a.cc@[0]@)) {
            Some(c) => if c.local {
                Some(c)
            } else {
                None
            },
            None => None,
        }
    }
}

/// Decides whether an activity is to be announced, and returns the
/// community that announces it.
pub fn announce_if_community_is_local(store: &Store, activity: &Activity) -> (r: Option<Actor>)
    ensures
        match r {
            Some(c) => spec_announcing_community(store@, *activity) == Some(c@),
            None => spec_announcing_community(store@, *activity).is_none(),
        },
{
    match get_community_id_from_activity(activity) {
        None => None,
        Some(followers) => {
            let uri = community_uri(followers.as_str());
            match store.actor(&uri) {
                Some(c) => if c.local {
                    Some(c.duplicate())
                } else {
                    None
                },
                None => None,
            }
        },
    }
}

/// Where deliveries to an actor go: its server's shared inbox if it names
/// one, its own inbox otherwise.
pub open spec fn spec_delivery_address(actor: ActorView) -> Seq<char> {
    match actor.shared_inbox_url {
        Some(shared) => shared,
        None => actor.inbox_url,
    }
}

/// Where deliveries to an actor go.
pub fn delivery_address(actor: &Actor) -> (r: &String)
    ensures
        r@ == spec_delivery_address(actor@),
{
    match &actor.shared_inbox_url {
        Some(shared) => shared,
        None => &actor.inbox_url,
    }
}

/// Delivery addresses of the remote actors among `followers`, in order.
pub open spec fn spec_follower_inboxes(followers: Seq<Actor>) -> Seq<Seq<char>>
    decreases followers.len(),
{
    if followers.len() == 0 {
        Seq::empty()
    } else {
        let init = spec_follower_inboxes(followers.drop_last());
        if followers.last()@.local {
            init
        } else {
            init.push(spec_delivery_address(followers.last()@))
        }
    }
}

/// The inboxes an announcement goes to: one delivery address per remote
/// follower. Followers hosted here have it already.
pub fn follower_inboxes(followers: &Vec<Actor>) -> (r: Vec<String>)
    ensures
        texts(r@) == spec_follower_inboxes(followers@),
{
    let mut out: Vec<String> = Vec::new();
    let mut i: usize = 0;
    assert(followers@.take(0) =~= Seq::empty());
    assert(texts(out@) =~= Seq::empty());
    while i < followers.len()
        invariant
            i <= followers.len(),
            texts(out@) == spec_follower_inboxes(followers@.take(i as int)),
        decreases followers.len() - i,
    {
        let ghost before = texts(out@);
        proof {
            assert(followers@.take(i + 1).drop_last() =~= followers@.take(i as int));
            assert(followers@.take(i + 1).last() == followers@[i as int]);
        }
        if !followers[i].local {
            out.push(delivery_address(&followers[i]).clone());
            assert(texts(out@) =~= before.push(spec_delivery_address(followers@[i as int]@)));
        }
        i += 1;
    }
    assert(followers@.take(followers.len() as int) =~= followers@);
    out
}

/// Announces an activity on behalf of a community hosted here: the
/// announcement is put on the ledger as originated here and enqueued for
/// the inboxes of the community's remote followers, each inbox once.
/// Returns the number of deliveries enqueued. When the community has no
/// private key nothing is recorded or enqueued.
pub fn do_announce(
    store: &mut Store,
    queue: &mut DeliveryQueue,
    announce: &Activity,
    payload: &String,
    community: &Actor,
    followers: &Vec<Actor>,
    now: i64,
) -> (r: Result<usize, DeliveryError>)
    requires
        old(store)@.wf(),
        old(queue)@.wf(),
    ensures
        final(store)@.wf(),
        final(queue)@.wf(),
        r.is_err() ==> final(store)@ == old(store)@ && final(queue)@ == old(queue)@,
        r.is_err() <==> community@.private_key.is_none() || old(queue)@.next_job
            + first_occurrences(spec_follower_inboxes(followers@)).len() > u64::MAX,
        r.is_ok() ==> final(store)@ == old(store)@.record(record_of(*announce, payload@, true, now))
            && final(queue)@ == old(queue)@.enqueue(
            payload@,
            community@.uri,
            community@.private_key.unwrap(),
            spec_follower_inboxes(followers@),
            now,
        ) && r == Ok::<usize, DeliveryError>(
            first_occurrences(spec_follower_inboxes(followers@)).len() as usize,
        ),
{
    let inboxes = follower_inboxes(followers);
    send_lemmy_activity(
        store,
        queue,
        announce,
        payload,
        community,
        &inboxes,
        now,
    )
}

} // verus!
