//! The store: actor cache, federated objects, reactions and the activity
//! ledger, held in memory.

use vstd::prelude::*;
use crate::apub::model::{
    Actor, ActivityRecord, FederatedObject, ObjectDoc, ObjectKind, ObjectView, Reaction,
};
use crate::apub::state::{actor_keys, ledger_keys, object_keys, reaction_keys, StoreView};
use crate::rows::{lemma_first_index, lemma_first_index_absent, lemma_first_index_is};
use crate::text::clone_opt;

verus! {

/// The backing store could not take the write.
#[derive(Clone, Copy, Debug, PartialEq, Eq, Structural)]
pub struct StorageFailure;

/// Where a stored object is found and what the handlers need of it.
#[derive(Clone, Copy, Debug, PartialEq, Eq, Structural)]
pub struct Located {
    pub id: u64,
    pub kind: ObjectKind,
    pub updated: i64,
}

/// What `locate` tells of a stored object.
pub open spec fn spec_located(o: Option<ObjectView>) -> Option<Located> {
    match o {
        Some(o) => Some(Located { id: o.id, kind: o.kind, updated: o.updated }),
        None => None,
    }
}

/// Views of the rows of a table, in order.
pub open spec fn views<T: View>(rows: Seq<T>) -> Seq<T::V> {
    Seq::new(rows.len(), |i: int| rows[i]@)
}

/// The tables of the engine. Rows are reached through the methods, which
/// keep one row per key.
pub struct Store {
    actors: Vec<Actor>,
    objects: Vec<FederatedObject>,
    reactions: Vec<Reaction>,
    ledger: Vec<ActivityRecord>,
    next_id: u64,
}

impl View for Store {
    type V = StoreView;

    closed spec fn view(&self) -> StoreView {
        StoreView {
            actors: views(self.actors@),
            objects: views(self.objects@),
            reactions: views(self.reactions@),
            ledger: views(self.ledger@),
            next_id: self.next_id,
        }
    }
}

impl Store {
    /// A store with no rows.
    pub fn new() -> (r: Store)
        ensures
            r@ == StoreView::empty(),
            r@.wf(),
    {
        let r = Store {
            actors: Vec::new(),
            objects: Vec::new(),
            reactions: Vec::new(),
            ledger: Vec::new(),
            next_id: 1,
        };
        assert(r@.actors =~= Seq::empty());
        assert(r@.objects =~= Seq::empty());
        assert(r@.reactions =~= Seq::empty());
        assert(r@.ledger =~= Seq::empty());
        r
    }

    /// A store with no rows whose local keys start at `first`.
    pub fn with_first_key(first: u64) -> (r: Store)
        ensures
            r@ == (StoreView { next_id: first, ..StoreView::empty() }),
            r@.wf(),
    {
        let r = Store {
            actors: Vec::new(),
            objects: Vec::new(),
            reactions: Vec::new(),
            ledger: Vec::new(),
            next_id: first,
        };
        assert(r@.actors =~= Seq::empty());
        assert(r@.objects =~= Seq::empty());
        assert(r@.reactions =~= Seq::empty());
        assert(r@.ledger =~= Seq::empty());
        r
    }

    // ----- objects -----

    fn find_object(&self, ap_id: &String) -> (r: Option<usize>)
        ensures
            match r {
                Some(i) => i < self.objects.len() && i == self@.object_index(ap_id@),
                None => !self@.has_object(ap_id@),
            },
    {
        let mut i: usize = 0;
        while i < self.objects.len()
            invariant
                i <= self.objects.len(),
                forall|j: int| 0 <= j < i ==> object_keys(self@.objects)[j] != ap_id@,
            decreases self.objects.len() - i,
        {
            if self.objects[i].ap_id == *ap_id {
                proof {
                    lemma_first_index_is(object_keys(self@.objects), ap_id@, i as int);
                }
                return Some(i);
            }
            i += 1;
        }
        proof {
            lemma_first_index_absent(object_keys(self@.objects), ap_id@);
        }
        None
    }

    /// Local key of the object with this URI, if it is stored.
    pub fn object_id(&self, ap_id: &str) -> (r: Option<u64>)
        ensures
            r == match self@.object(ap_id@) {
                Some(o) => Some(o.id),
                None => None,
            },
    {
        let key = ap_id.to_owned();
        match self.find_object(&key) {
            Some(i) => Some(self.objects[i].id),
            None => None,
        }
    }

    /// The stored object with this URI.
    pub fn object(&self, ap_id: &str) -> (r: Option<&FederatedObject>)
        ensures
            match r {
                Some(o) => self@.object(ap_id@) == Some(o@),
                None => self@.object(ap_id@).is_none(),
            },
    {
        let key = ap_id.to_owned();
        match self.find_object(&key) {
            Some(i) => Some(&self.objects[i]),
            None => None,
        }
    }

    /// Local key, kind and last update time of the object with this URI.
    pub fn locate(&self, ap_id: &String) -> (r: Option<Located>)
        ensures
            r == spec_located(self@.object(ap_id@)),
    {
        match self.find_object(ap_id) {
            Some(i) => Some(
                Located {
                    id: self.objects[i].id,
                    kind: self.objects[i].kind,
                    updated: self.objects[i].updated,
                },
            ),
            None => None,
        }
    }

    /// Number of stored objects.
    pub fn object_count(&self) -> (r: usize)
        ensures
            r == self@.objects.len(),
    {
        self.objects.len()
    }

    /// Inserts the object of `doc` if its URI is new and overwrites what the
    /// document says if it is stored already. Returns the object's local
    /// key. Fails, changing nothing, only when the object is new and no
    /// local key is left.
    pub fn upsert_object(&mut self, doc: &ObjectDoc, kind: ObjectKind, when: i64) -> (r: Result<
        u64,
        StorageFailure,
    >)
        requires
            old(self)@.wf(),
        ensures
            final(self)@.wf(),
            old(self)@.can_upsert(doc@.id) ==> final(self)@ == old(self)@.upsert_object(
                doc@,
                kind,
                when,
            ) && r == Ok::<u64, StorageFailure>(final(self)@.stored_id(doc@.id)),
            !old(self)@.can_upsert(doc@.id) ==> final(self)@ == old(self)@ && r == Err::<
                u64,
                StorageFailure,
            >(StorageFailure),
    {
        proof {
            old(self)@.lemma_upsert_object(doc@, kind, when);
        }
        match self.find_object(&doc.id) {
            Some(i) => {
                let id = self.objects[i].id;
                self.objects[i].kind = kind;
                self.objects[i].owner = doc.attributed_to.clone();
                self.objects[i].parent = clone_opt(&doc.parent);
                self.objects[i].content = doc.content.clone();
                self.objects[i].published = doc.published;
                self.objects[i].updated = when;
                assert(self@.objects =~= old(self)@.upsert_object(doc@, kind, when).objects);
                Ok(id)
            },
            None => {
                if self.next_id == u64::MAX {
                    return Err(StorageFailure);
                }
                let id = self.next_id;
                self.objects.push(
                    FederatedObject {
                        id,
                        ap_id: doc.id.clone(),
                        kind,
                        owner: doc.attributed_to.clone(),
                        parent: clone_opt(&doc.parent),
                        content: doc.content.clone(),
                        removed: false,
                        deleted: false,
                        locked: false,
                        local: false,
                        published: doc.published,
                        updated: when,
                    },
                );
                self.next_id = self.next_id + 1;
                assert(self@.objects =~= old(self)@.upsert_object(doc@, kind, when).objects);
                Ok(id)
            },
        }
    }

    /// Sets the `removed` flag of the object with this URI and returns its
    /// local key. Nothing changes if the object is not stored.
    pub fn set_removed(&mut self, ap_id: &String, removed: bool, when: i64) -> (r: Option<u64>)
        requires
            old(self)@.wf(),
        ensures
            final(self)@.wf(),
            final(self)@ == old(self)@.set_removed(ap_id@, removed, when),
            r == match old(self)@.object(ap_id@) {
                Some(o) => Some(o.id),
                None => None,
            },
    {
        proof {
            old(self)@.lemma_set_flags(ap_id@, removed, when);
        }
        match self.find_object(ap_id) {
            Some(i) => {
                self.objects[i].removed = removed;
                self.objects[i].updated = when;
                assert(self@.objects =~= old(self)@.set_removed(ap_id@, removed, when).objects);
                Some(self.objects[i].id)
            },
            None => None,
        }
    }

    /// Sets the `deleted` flag of the object with this URI and returns its
    /// local key. Nothing changes if the object is not stored.
    pub fn set_deleted(&mut self, ap_id: &String, deleted: bool, when: i64) -> (r: Option<u64>)
        requires
            old(self)@.wf(),
        ensures
            final(self)@.wf(),
            final(self)@ == old(self)@.set_deleted(ap_id@, deleted, when),
            r == match old(self)@.object(ap_id@) {
                Some(o) => Some(o.id),
                None => None,
            },
    {
        proof {
            old(self)@.lemma_set_flags(ap_id@, deleted, when);
        }
        match self.find_object(ap_id) {
            Some(i) => {
                self.objects[i].deleted = deleted;
                self.objects[i].updated = when;
                assert(self@.objects =~= old(self)@.set_deleted(ap_id@, deleted, when).objects);
                Some(self.objects[i].id)
            },
            None => None,
        }
    }

    // ----- reactions -----

    fn find_reaction(&self, object_id: u64, actor: &String) -> (r: Option<usize>)
        ensures
            match r {
                Some(i) => i < self.reactions.len() && i == self@.reaction_index(object_id, actor@),
                None => self@.reaction_index(object_id, actor@) == self.reactions.len(),
            },
    {
        let mut i: usize = 0;
        while i < self.reactions.len()
            invariant
                i <= self.reactions.len(),
                forall|j: int| 0 <= j < i ==> reaction_keys(self@.reactions)[j] != (object_id, actor@),
            decreases self.reactions.len() - i,
        {
            if self.reactions[i].object_id == object_id && self.reactions[i].actor == *actor {
                proof {
                    lemma_first_index_is(
                        reaction_keys(self@.reactions),
                        (object_id, actor@),
                        i as int,
                    );
                }
                return Some(i);
            }
            i += 1;
        }
        proof {
            lemma_first_index_absent(reaction_keys(self@.reactions), (object_id, actor@));
        }
        None
    }

    /// The actor's reaction to the object, if there is one.
    pub fn reaction(&self, object_id: u64, actor: &str) -> (r: Option<i8>)
        ensures
            r == self@.reaction(object_id, actor@),
    {
        let key = actor.to_owned();
        match self.find_reaction(object_id, &key) {
            Some(i) => Some(self.reactions[i].score),
            None => None,
        }
    }

    /// Number of stored reactions.
    pub fn reaction_count(&self) -> (r: usize)
        ensures
            r == self@.reactions.len(),
    {
        self.reactions.len()
    }

    /// Stores the actor's reaction to the object in place of any earlier
    /// one.
    pub fn upsert_reaction(&mut self, object_id: u64, actor: &String, score: i8)
        requires
            old(self)@.wf(),
        ensures
            final(self)@.wf(),
            final(self)@ == old(self)@.upsert_reaction(object_id, actor@, score),
    {
        proof {
            old(self)@.lemma_upsert_reaction(object_id, actor@, score);
        }
        match self.find_reaction(object_id, actor) {
            Some(i) => {
                proof {
                    lemma_first_index(reaction_keys(self@.reactions), (object_id, actor@));
                }
                self.reactions[i].score = score;
                assert(self@.reactions =~= old(self)@.upsert_reaction(
                    object_id,
                    actor@,
                    score,
                ).reactions);
            },
            None => {
                self.reactions.push(Reaction { object_id, actor: actor.clone(), score });
                assert(self@.reactions =~= old(self)@.upsert_reaction(
                    object_id,
                    actor@,
                    score,
                ).reactions);
            },
        }
    }

    /// Drops the actor's reaction to the object. Returns whether there was
    /// one.
    pub fn remove_reaction(&mut self, object_id: u64, actor: &String) -> (r: bool)
        requires
            old(self)@.wf(),
        ensures
            final(self)@.wf(),
            final(self)@ == old(self)@.remove_reaction(object_id, actor@),
            r == old(self)@.reaction(object_id, actor@).is_some(),
    {
        proof {
            old(self)@.lemma_remove_reaction(object_id, actor@);
        }
        match self.find_reaction(object_id, actor) {
            Some(i) => {
                self.reactions.remove(i);
                assert(self@.reactions =~= old(self)@.remove_reaction(object_id, actor@).reactions);
                true
            },
            None => false,
        }
    }

    // ----- ledger -----

    /// Whether an activity with this id has been recorded.
    pub fn is_known(&self, activity_id: &String) -> (r: bool)
        ensures
            r == self@.is_known(activity_id@),
    {
        let mut i: usize = 0;
        while i < self.ledger.len()
            invariant
                i <= self.ledger.len(),
                forall|j: int| 0 <= j < i ==> ledger_keys(self@.ledger)[j] != activity_id@,
            decreases self.ledger.len() - i,
        {
            if self.ledger[i].id == *activity_id {
                proof {
                    lemma_first_index_is(ledger_keys(self@.ledger), activity_id@, i as int);
                }
                return true;
            }
            i += 1;
        }
        proof {
            lemma_first_index_absent(ledger_keys(self@.ledger), activity_id@);
        }
        false
    }

    /// Number of recorded activities.
    pub fn ledger_len(&self) -> (r: usize)
        ensures
            r == self@.ledger.len(),
    {
        self.ledger.len()
    }

    /// Appends the record to the ledger unless its activity is recorded
    /// already. Returns whether the record was appended.
    pub fn record(&mut self, rec: ActivityRecord) -> (r: bool)
        requires
            old(self)@.wf(),
        ensures
            final(self)@.wf(),
            final(self)@ == old(self)@.record(rec@),
            r == !old(self)@.is_known(rec@.id),
    {
        proof {
            old(self)@.lemma_record(rec@);
        }
        if self.is_known(&rec.id) {
            false
        } else {
            self.ledger.push(rec);
            assert(self@.ledger =~= old(self)@.record(rec@).ledger);
            true
        }
    }

    // ----- actors -----

    fn find_actor(&self, uri: &String) -> (r: Option<usize>)
        ensures
            match r {
                Some(i) => i < self.actors.len() && i == self@.actor_index(uri@),
                None => self@.actor_index(uri@) == self.actors.len(),
            },
    {
        let mut i: usize = 0;
        while i < self.actors.len()
            invariant
                i <= self.actors.len(),
                forall|j: int| 0 <= j < i ==> actor_keys(self@.actors)[j] != uri@,
            decreases self.actors.len() - i,
        {
            if self.actors[i].uri == *uri {
                proof {
                    lemma_first_index_is(actor_keys(self@.actors), uri@, i as int);
                }
                return Some(i);
            }
            i += 1;
        }
        proof {
            lemma_first_index_absent(actor_keys(self@.actors), uri@);
        }
        None
    }

    /// The cached actor with this URI.
    pub fn actor(&self, uri: &String) -> (r: Option<&Actor>)
        ensures
            match r {
                Some(a) => self@.actor(uri@) == Some(a@),
                None => self@.actor(uri@).is_none(),
            },
    {
        match self.find_actor(uri) {
            Some(i) => Some(&self.actors[i]),
            None => None,
        }
    }

    /// Number of cached actors.
    pub fn actor_count(&self) -> (r: usize)
        ensures
            r == self@.actors.len(),
    {
        self.actors.len()
    }

    /// Inserts the actor if its URI is new; otherwise replaces name, public
    /// key, inbox addresses and refresh time of the cached row.
    pub fn upsert_actor(&mut self, actor: Actor)
        requires
            old(self)@.wf(),
        ensures
            final(self)@.wf(),
            final(self)@ == old(self)@.upsert_actor(actor@),
    {
        proof {
            old(self)@.lemma_upsert_actor(actor@);
        }
        match self.find_actor(&actor.uri) {
            Some(i) => {
                self.actors[i].name = actor.name;
                self.actors[i].public_key = actor.public_key;
                self.actors[i].inbox_url = actor.inbox_url;
                self.actors[i].shared_inbox_url = actor.shared_inbox_url;
                self.actors[i].last_refreshed_at = actor.last_refreshed_at;
                assert(self@.actors =~= old(self)@.upsert_actor(actor@).actors);
            },
            None => {
                self.actors.push(actor);
                assert(self@.actors =~= old(self)@.upsert_actor(actor@).actors);
            },
        }
    }
}

} // verus!
