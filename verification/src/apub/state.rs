//! The engine's state as a value: four keyed tables and the next local key.
//! Every operation of the store is a function on this value.

use vstd::prelude::*;
use crate::apub::model::{ActorView, DocView, ObjectKind, ObjectView, ReactionView, RecordView};
use crate::rows::{
    distinct, first_index, lemma_first_index, lemma_first_index_absent, lemma_first_index_is,
};

verus! {

/// The keys of the actor cache: the URIs of its rows.
pub open spec fn actor_keys(rows: Seq<ActorView>) -> Seq<Seq<char>> {
    Seq::new(rows.len(), |i: int| rows[i].uri)
}

/// The keys of the objects: the URIs of the rows.
pub open spec fn object_keys(rows: Seq<ObjectView>) -> Seq<Seq<char>> {
    Seq::new(rows.len(), |i: int| rows[i].ap_id)
}

/// The local keys of the objects.
pub open spec fn object_ids(rows: Seq<ObjectView>) -> Seq<u64> {
    Seq::new(rows.len(), |i: int| rows[i].id)
}

/// The keys of the reactions: object and actor of each row.
pub open spec fn reaction_keys(rows: Seq<ReactionView>) -> Seq<(u64, Seq<char>)> {
    Seq::new(rows.len(), |i: int| (rows[i].object_id, rows[i].actor))
}

/// The keys of the ledger: the ids of the recorded activities.
pub open spec fn ledger_keys(rows: Seq<RecordView>) -> Seq<Seq<char>> {
    Seq::new(rows.len(), |i: int| rows[i].id)
}

/// The row a document makes when its object is first stored under local
/// key `id`.
pub open spec fn fresh_object(doc: DocView, kind: ObjectKind, id: u64, when: i64) -> ObjectView {
    ObjectView {
        id,
        ap_id: doc.id,
        kind,
        owner: doc.attributed_to,
        parent: doc.parent,
        content: doc.content,
        removed: false,
        deleted: false,
        locked: false,
        local: false,
        published: doc.published,
        updated: when,
    }
}

/// The row that results when a document overwrites a stored object: what
/// the document says replaces what was stored; the local key, the flags
/// and the URI stay.
pub open spec fn refreshed_object(old: ObjectView, doc: DocView, kind: ObjectKind, when: i64)
    -> ObjectView {
    ObjectView {
        kind,
        owner: doc.attributed_to,
        parent: doc.parent,
        content: doc.content,
        published: doc.published,
        updated: when,
        ..old
    }
}

/// The row that results when a fetched actor overwrites a cached one: name,
/// key, inbox addresses and refresh time are replaced.
pub open spec fn refreshed_actor(old: ActorView, new: ActorView) -> ActorView {
    ActorView {
        name: new.name,
        public_key: new.public_key,
        inbox_url: new.inbox_url,
        shared_inbox_url: new.shared_inbox_url,
        last_refreshed_at: new.last_refreshed_at,
        ..old
    }
}

/// The state of the store.
pub ghost struct StoreView {
    pub actors: Seq<ActorView>,
    pub objects: Seq<ObjectView>,
    pub reactions: Seq<ReactionView>,
    pub ledger: Seq<RecordView>,
    pub next_id: u64,
}

impl StoreView {
    /// The state of a store with no rows.
    pub open spec fn empty() -> StoreView {
        StoreView {
            actors: Seq::empty(),
            objects: Seq::empty(),
            reactions: Seq::empty(),
            ledger: Seq::empty(),
            next_id: 1,
        }
    }

    /// Every table has one row per key, and local keys are unique and below
    /// the next key to hand out.
    pub open spec fn wf(self) -> bool {
        &&& distinct(actor_keys(self.actors))
        &&& distinct(object_keys(self.objects))
        &&& distinct(object_ids(self.objects))
        &&& distinct(reaction_keys(self.reactions))
        &&& distinct(ledger_keys(self.ledger))
        &&& forall|i: int| 0 <= i < self.objects.len() ==> (#[trigger] self.objects[i]).id < self.next_id
    }

    // ----- objects -----

    /// Row of the object with this URI, or the number of rows if it is not
    /// stored.
    pub open spec fn object_index(self, ap_id: Seq<char>) -> int {
        first_index(object_keys(self.objects), ap_id)
    }

    /// Whether an object with this URI is stored.
    pub open spec fn has_object(self, ap_id: Seq<char>) -> bool {
        self.object_index(ap_id) < self.objects.len()
    }

    /// The stored object with this URI.
    pub open spec fn object(self, ap_id: Seq<char>) -> Option<ObjectView> {
        if self.has_object(ap_id) {
            Some(self.objects[self.object_index(ap_id)])
        } else {
            None
        }
    }

    /// Local key of the object with this URI; meaningful where the object
    /// is stored.
    pub open spec fn stored_id(self, ap_id: Seq<char>) -> u64 {
        self.objects[self.object_index(ap_id)].id
    }

    /// Whether a document with this URI can be stored: its object is there
    /// already, or a local key is left for it.
    pub open spec fn can_upsert(self, ap_id: Seq<char>) -> bool {
        self.has_object(ap_id) || self.next_id < u64::MAX
    }

    /// Insert the object if its URI is new, overwrite what the document
    /// says if it is stored already.
    pub open spec fn upsert_object(self, doc: DocView, kind: ObjectKind, when: i64) -> StoreView {
        let i = self.object_index(doc.id);
        if i < self.objects.len() {
            StoreView {
                objects: self.objects.update(i, refreshed_object(self.objects[i], doc, kind, when)),
                ..self
            }
        } else {
            StoreView {
                objects: self.objects.push(fresh_object(doc, kind, self.next_id, when)),
                next_id: (self.next_id + 1) as u64,
                ..self
            }
        }
    }

    /// An upsert that can take place keeps the tables well formed, and the
    /// object is then found where it was, or at the end if it is new.
    pub proof fn lemma_upsert_object(self, doc: DocView, kind: ObjectKind, when: i64)
        requires
            self.wf(),
        ensures
            self.can_upsert(doc.id) ==> self.upsert_object(doc, kind, when).wf(),
            self.upsert_object(doc, kind, when).object_index(doc.id) == self.object_index(doc.id),
            self.upsert_object(doc, kind, when).has_object(doc.id),
            0 <= self.object_index(doc.id) <= self.objects.len(),
    {
        let after = self.upsert_object(doc, kind, when);
        let keys = object_keys(self.objects);
        let i = self.object_index(doc.id);
        lemma_first_index(keys, doc.id);
        if i < self.objects.len() {
            assert(object_keys(after.objects) =~= keys);
            assert(object_ids(after.objects) =~= object_ids(self.objects));
        } else {
            assert(object_keys(after.objects) =~= keys.push(doc.id));
            lemma_first_index_is(object_keys(after.objects), doc.id, i);
            if self.can_upsert(doc.id) {
                assert(forall|j: int| 0 <= j < self.objects.len() ==> object_ids(self.objects)[j] == self.objects[j].id);
                assert(distinct(object_ids(after.objects))) by {
                    assert forall|a: int, b: int| 0 <= a < b < after.objects.len() implies object_ids(after.objects)[a] != object_ids(after.objects)[b] by {
                        if b < self.objects.len() {
                            assert(object_ids(self.objects)[a] != object_ids(self.objects)[b]);
                        } else {
                            assert(self.objects[a].id < self.next_id);
                        }
                    }
                }
                assert(distinct(object_keys(after.objects))) by {
                    assert forall|a: int, b: int| 0 <= a < b < after.objects.len() implies object_keys(after.objects)[a] != object_keys(after.objects)[b] by {
                        if b < self.objects.len() {
                            assert(keys[a] != keys[b]);
                        } else {
                            assert(keys[a] != doc.id);
                        }
                    }
                }
            }
        }
    }

    /// Set the `removed` flag of a stored object; nothing changes if the
    /// object is not stored.
    pub open spec fn set_removed(self, ap_id: Seq<char>, removed: bool, when: i64) -> StoreView {
        let i = self.object_index(ap_id);
        if i < self.objects.len() {
            StoreView {
                objects: self.objects.update(
                    i,
                    ObjectView { removed, updated: when, ..self.objects[i] },
                ),
                ..self
            }
        } else {
            self
        }
    }

    /// Set the `deleted` flag of a stored object; nothing changes if the
    /// object is not stored.
    pub open spec fn set_deleted(self, ap_id: Seq<char>, deleted: bool, when: i64) -> StoreView {
        let i = self.object_index(ap_id);
        if i < self.objects.len() {
            StoreView {
                objects: self.objects.update(
                    i,
                    ObjectView { deleted, updated: when, ..self.objects[i] },
                ),
                ..self
            }
        } else {
            self
        }
    }

    /// Setting a flag keeps the tables well formed and moves no row.
    pub proof fn lemma_set_flags(self, ap_id: Seq<char>, value: bool, when: i64)
        requires
            self.wf(),
        ensures
            self.set_removed(ap_id, value, when).wf(),
            self.set_deleted(ap_id, value, when).wf(),
            object_keys(self.set_removed(ap_id, value, when).objects) == object_keys(self.objects),
            object_keys(self.set_deleted(ap_id, value, when).objects) == object_keys(self.objects),
            0 <= self.object_index(ap_id) <= self.objects.len(),
    {
        lemma_first_index(object_keys(self.objects), ap_id);
        let r = self.set_removed(ap_id, value, when);
        let d = self.set_deleted(ap_id, value, when);
        assert(object_keys(r.objects) =~= object_keys(self.objects));
        assert(object_ids(r.objects) =~= object_ids(self.objects));
        assert(object_keys(d.objects) =~= object_keys(self.objects));
        assert(object_ids(d.objects) =~= object_ids(self.objects));
    }

    // ----- reactions -----

    /// Row of the actor's reaction to the object, or the number of rows if
    /// there is none.
    pub open spec fn reaction_index(self, object_id: u64, actor: Seq<char>) -> int {
        first_index(reaction_keys(self.reactions), (object_id, actor))
    }

    /// What the actor's reaction to the object counts, if there is one.
    pub open spec fn reaction(self, object_id: u64, actor: Seq<char>) -> Option<i8> {
        let i = self.reaction_index(object_id, actor);
        if i < self.reactions.len() {
            Some(self.reactions[i].score)
        } else {
            None
        }
    }

    /// Store the actor's reaction to the object in place of any earlier
    /// one.
    pub open spec fn upsert_reaction(self, object_id: u64, actor: Seq<char>, score: i8)
        -> StoreView {
        let i = self.reaction_index(object_id, actor);
        let row = ReactionView { object_id, actor, score };
        if i < self.reactions.len() {
            StoreView { reactions: self.reactions.update(i, row), ..self }
        } else {
            StoreView { reactions: self.reactions.push(row), ..self }
        }
    }

    /// Drop the actor's reaction to the object, if there is one.
    pub open spec fn remove_reaction(self, object_id: u64, actor: Seq<char>) -> StoreView {
        let i = self.reaction_index(object_id, actor);
        if i < self.reactions.len() {
            StoreView { reactions: self.reactions.remove(i), ..self }
        } else {
            self
        }
    }

    /// Storing a reaction keeps the tables well formed; afterwards the
    /// actor has exactly the stored reaction to the object.
    pub proof fn lemma_upsert_reaction(self, object_id: u64, actor: Seq<char>, score: i8)
        requires
            self.wf(),
        ensures
            self.upsert_reaction(object_id, actor, score).wf(),
            self.upsert_reaction(object_id, actor, score).reaction(object_id, actor) == Some(score),
            self.upsert_reaction(object_id, actor, score).reaction_index(object_id, actor)
                == self.reaction_index(object_id, actor),
            0 <= self.reaction_index(object_id, actor) <= self.reactions.len(),
    {
        let after = self.upsert_reaction(object_id, actor, score);
        let keys = reaction_keys(self.reactions);
        let i = self.reaction_index(object_id, actor);
        lemma_first_index(keys, (object_id, actor));
        if i < self.reactions.len() {
            assert(reaction_keys(after.reactions) =~= keys);
        } else {
            assert(reaction_keys(after.reactions) =~= keys.push((object_id, actor)));
            lemma_first_index_is(reaction_keys(after.reactions), (object_id, actor), i);
            assert(distinct(reaction_keys(after.reactions))) by {
                assert forall|a: int, b: int| 0 <= a < b < after.reactions.len() implies reaction_keys(
                    after.reactions,
                )[a] != reaction_keys(after.reactions)[b] by {
                    if b < self.reactions.len() {
                        assert(keys[a] != keys[b]);
                    } else {
                        assert(keys[a] != (object_id, actor));
                    }
                }
            }
        }
    }

    /// Dropping a reaction keeps the tables well formed; afterwards the
    /// actor has no reaction to the object.
    pub proof fn lemma_remove_reaction(self, object_id: u64, actor: Seq<char>)
        requires
            self.wf(),
        ensures
            self.remove_reaction(object_id, actor).wf(),
            self.remove_reaction(object_id, actor).reaction(object_id, actor).is_none(),
            0 <= self.reaction_index(object_id, actor) <= self.reactions.len(),
    {
        let after = self.remove_reaction(object_id, actor);
        let keys = reaction_keys(self.reactions);
        let k = (object_id, actor);
        let i = self.reaction_index(object_id, actor);
        lemma_first_index(keys, k);
        if i < self.reactions.len() {
            let keys2 = reaction_keys(after.reactions);
            assert(keys2 =~= keys.remove(i));
            assert forall|a: int| 0 <= a < keys2.len() implies keys2[a] != k by {
                if a < i {
                    assert(keys2[a] == keys[a]);
                } else {
                    assert(keys2[a] == keys[a + 1]);
                    assert(keys[i] != keys[a + 1]);
                }
            }
            lemma_first_index_absent(keys2, k);
            assert(distinct(keys2)) by {
                assert forall|a: int, b: int| 0 <= a < b < keys2.len() implies keys2[a] != keys2[b] by {
                    let a0 = if a < i { a } else { a + 1 };
                    let b0 = if b < i { b } else { b + 1 };
                    assert(keys2[a] == keys[a0]);
                    assert(keys2[b] == keys[b0]);
                    assert(keys[a0] != keys[b0]);
                }
            }
        }
    }

    // ----- ledger -----

    /// Whether an activity with this id is on the ledger.
    pub open spec fn is_known(self, activity_id: Seq<char>) -> bool {
        first_index(ledger_keys(self.ledger), activity_id) < self.ledger.len()
    }

    /// Append the record unless its activity is on the ledger already.
    pub open spec fn record(self, rec: RecordView) -> StoreView {
        if self.is_known(rec.id) {
            self
        } else {
            StoreView { ledger: self.ledger.push(rec), ..self }
        }
    }

    /// Recording keeps the tables well formed, and the activity is known
    /// afterwards.
    pub proof fn lemma_record(self, rec: RecordView)
        requires
            self.wf(),
        ensures
            self.record(rec).wf(),
            self.record(rec).is_known(rec.id),
            forall|id: Seq<char>| self.is_known(id) ==> #[trigger] self.record(rec).is_known(id),
            forall|id: Seq<char>| id != rec.id ==> (#[trigger] self.record(rec).is_known(id) <==> self.is_known(id)),
    {
        let after = self.record(rec);
        let keys = ledger_keys(self.ledger);
        lemma_first_index(keys, rec.id);
        if !self.is_known(rec.id) {
            let keys2 = ledger_keys(after.ledger);
            assert(keys2 =~= keys.push(rec.id));
            lemma_first_index_is(keys2, rec.id, keys.len() as int);
            assert(distinct(keys2)) by {
                assert forall|a: int, b: int| 0 <= a < b < keys2.len() implies keys2[a] != keys2[b] by {
                    if b < keys.len() {
                        assert(keys[a] != keys[b]);
                    } else {
                        assert(keys[a] != rec.id);
                    }
                }
            }
            assert forall|id: Seq<char>| id != rec.id implies (#[trigger] after.is_known(id) <==> self.is_known(id)) by {
                lemma_first_index(keys, id);
                lemma_first_index(keys2, id);
                let p = first_index(keys, id);
                let q = first_index(keys2, id);
                if p < keys.len() {
                    assert(keys2[p] == id);
                    if q > p {
                        assert(keys2[p] != id);
                    }
                }
                if q < keys2.len() {
                    assert(q < keys.len());
                    assert(keys[q] == id);
                }
            }
        }
    }

    // ----- actors -----

    /// Row of the actor with this URI, or the number of rows if it is not
    /// cached.
    pub open spec fn actor_index(self, uri: Seq<char>) -> int {
        first_index(actor_keys(self.actors), uri)
    }

    /// The cached actor with this URI.
    pub open spec fn actor(self, uri: Seq<char>) -> Option<ActorView> {
        let i = self.actor_index(uri);
        if i < self.actors.len() {
            Some(self.actors[i])
        } else {
            None
        }
    }

    /// Insert the actor if its URI is new, refresh the cached row if not.
    pub open spec fn upsert_actor(self, actor: ActorView) -> StoreView {
        let i = self.actor_index(actor.uri);
        if i < self.actors.len() {
            StoreView {
                actors: self.actors.update(i, refreshed_actor(self.actors[i], actor)),
                ..self
            }
        } else {
            StoreView { actors: self.actors.push(actor), ..self }
        }
    }

    /// Caching an actor keeps the tables well formed, and the actor is
    /// cached afterwards.
    pub proof fn lemma_upsert_actor(self, actor: ActorView)
        requires
            self.wf(),
        ensures
            self.upsert_actor(actor).wf(),
            self.upsert_actor(actor).actor_index(actor.uri) == self.actor_index(actor.uri),
            self.upsert_actor(actor).actor(actor.uri).is_some(),
            0 <= self.actor_index(actor.uri) <= self.actors.len(),
    {
        let after = self.upsert_actor(actor);
        let keys = actor_keys(self.actors);
        let i = self.actor_index(actor.uri);
        lemma_first_index(keys, actor.uri);
        if i < self.actors.len() {
            assert(actor_keys(after.actors) =~= keys);
        } else {
            let keys2 = actor_keys(after.actors);
            assert(keys2 =~= keys.push(actor.uri));
            lemma_first_index_is(keys2, actor.uri, i);
            assert(distinct(keys2)) by {
                assert forall|a: int, b: int| 0 <= a < b < keys2.len() implies keys2[a] != keys2[b] by {
                    if b < keys.len() {
                        assert(keys[a] != keys[b]);
                    } else {
                        assert(keys[a] != actor.uri);
                    }
                }
            }
        }
    }
}

} // verus!
