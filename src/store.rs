//! The entity store: live entities by identifier, and the craft and planet
//! references.
use vstd::prelude::*;
use crate::entity::{Blueprint, Entity, Kind};

verus! {

/// Identifiers strictly ascend along the sequence (so each is unique).
pub open spec fn ids_ascending(s: Seq<Entity>) -> bool {
    forall|i: int, j: int| 0 <= i < j < s.len() ==> s[i].id < s[j].id
}

/// Some entity of `s` has identifier `id`.
pub open spec fn holds_id(s: Seq<Entity>, id: u64) -> bool {
    exists|i: int| 0 <= i < s.len() && s[i].id == id
}

/// The entity of `s` with identifier `id`, if any.
pub open spec fn lookup(s: Seq<Entity>, id: u64) -> Option<Entity> {
    if holds_id(s, id) {
        Some(s[choose|i: int| 0 <= i < s.len() && s[i].id == id])
    } else {
        None
    }
}

/// `id` was handed out and its entity is gone; it is never handed out again.
pub open spec fn retired(st: EntityStore, id: u64) -> bool {
    !holds_id(st@, id) && id < st.next_id
}

/// Every entity is well formed.
pub open spec fn all_wf(s: Seq<Entity>) -> bool {
    forall|i: int| 0 <= i < s.len() ==> #[trigger] s[i].wf()
}

/// A reference slot that is empty or names a live entity of the given kind.
pub open spec fn slot_ok(s: Seq<Entity>, slot: Option<u64>, kind: Kind) -> bool {
    match slot {
        Some(id) => lookup(s, id) is Some && lookup(s, id).unwrap().body.kind == kind,
        None => true,
    }
}

/// A slot after the entities with identifiers in `ids` have gone.
pub open spec fn slot_after(slot: Option<u64>, ids: Seq<u64>) -> Option<u64> {
    match slot {
        Some(id) => if ids.contains(id) { None } else { slot },
        None => None,
    }
}

pub proof fn lemma_lookup_at(s: Seq<Entity>, k: int)
    requires
        ids_ascending(s),
        0 <= k < s.len(),
    ensures
        lookup(s, s[k].id) == Some(s[k]),
{
    assert(holds_id(s, s[k].id));
    let c = choose|i: int| 0 <= i < s.len() && s[i].id == s[k].id;
    if c < k {
        assert(s[c].id < s[k].id);
    } else if c > k {
        assert(s[k].id < s[c].id);
    }
}

/// Two sequences with the same identifiers at each index, and bodies of the
/// same kind.
pub open spec fn same_ids(s: Seq<Entity>, t: Seq<Entity>) -> bool {
    &&& s.len() == t.len()
    &&& forall|i: int| 0 <= i < s.len() ==> #[trigger] s[i].id == t[i].id && s[i].body.kind == t[i].body.kind
}

/// A store whose entities are rewritten in place, keeping identifiers and
/// kinds, stays well formed if the new entities are.
pub proof fn lemma_rewrite_wf(st: EntityStore, t: Seq<Entity>)
    requires
        st.wf(),
        same_ids(st@, t),
        all_wf(t),
    ensures
        ids_ascending(t),
        forall|i: int| 0 <= i < t.len() ==> #[trigger] t[i].id < st.next_id,
        slot_ok(t, st.craft, Kind::Ship),
        slot_ok(t, st.planet, Kind::Planet),
        forall|id: u64| holds_id(t, id) == holds_id(st@, id),
{
    let s = st@;
    assert forall|i: int| 0 <= i < t.len() implies #[trigger] t[i].id < st.next_id by {
        assert(s[i].id == t[i].id);
    }
    assert forall|i: int, j: int| 0 <= i < j < t.len() implies t[i].id < t[j].id by {
        assert(s[i].id == t[i].id);
        assert(s[j].id == t[j].id);
    }
    assert forall|id: u64| holds_id(t, id) == holds_id(s, id) by {
        if holds_id(t, id) {
            let k = choose|i: int| 0 <= i < t.len() && t[i].id == id;
            assert(s[k].id == id);
        }
        if holds_id(s, id) {
            let k = choose|i: int| 0 <= i < s.len() && s[i].id == id;
            assert(t[k].id == id);
        }
    }
    if let Some(c) = st.craft {
        let k = choose|i: int| 0 <= i < s.len() && s[i].id == c;
        lemma_lookup_at(s, k);
        assert(t[k].id == c && t[k].body.kind == s[k].body.kind);
        lemma_lookup_at(t, k);
    }
    if let Some(p) = st.planet {
        let k = choose|i: int| 0 <= i < s.len() && s[i].id == p;
        lemma_lookup_at(s, k);
        assert(t[k].id == p && t[k].body.kind == s[k].body.kind);
        lemma_lookup_at(t, k);
    }
}

/// Whether `v` lists `x`.
pub fn vec_has(v: &Vec<u64>, x: u64) -> (r: bool)
    ensures
        r == v@.contains(x),
{
    let mut k: usize = 0;
    while k < v.len()
        invariant
            k <= v@.len(),
            forall|i: int| 0 <= i < k ==> v@[i] != x,
        decreases v@.len() - k,
    {
        if v[k] == x {
            return true;
        }
        k += 1;
    }
    false
}

/// Failure of a lookup.
#[derive(Clone, Copy, Debug, PartialEq, Eq, Structural)]
pub enum StoreError {
    NotFound,
}

/// Live entities, ordered by identifier, with the next identifier to assign
/// and the references to the player's craft and to the planet.
pub struct EntityStore {
    pub entities: Vec<Entity>,
    pub next_id: u64,
    pub craft: Option<u64>,
    pub planet: Option<u64>,
}

impl EntityStore {
    pub open spec fn view(&self) -> Seq<Entity> {
        self.entities@
    }

    /// Identifiers ascend and are below `next_id`; entities are well formed;
    /// the references name live entities of the right kind.
    pub open spec fn wf(&self) -> bool {
        &&& ids_ascending(self.entities@)
        &&& forall|i: int| 0 <= i < self.entities@.len() ==> #[trigger] self.entities@[i].id < self.next_id
        &&& all_wf(self.entities@)
        &&& slot_ok(self.entities@, self.craft, Kind::Ship)
        &&& slot_ok(self.entities@, self.planet, Kind::Planet)
    }

    /// An empty store.
    pub fn new() -> (r: EntityStore)
        ensures
            r.wf(),
            r.view().len() == 0,
            r.next_id == 1,
            r.craft is None,
            r.planet is None,
    {
        EntityStore { entities: Vec::new(), next_id: 1, craft: None, planet: None }
    }

    /// Inserts an entity under the next identifier, which it returns; `None`
    /// when the identifiers are exhausted (then nothing changes).
    pub fn create(&mut self, b: Blueprint) -> (r: Option<u64>)
        requires
            old(self).wf(),
            b.wf(),
        ensures
            final(self).wf(),
            final(self).craft == old(self).craft,
            final(self).planet == old(self).planet,
            forall|id: u64| #[trigger] retired(*old(self), id) ==> retired(*final(self), id),
            forall|id: u64| id < old(self).next_id ==> #[trigger] lookup(final(self)@, id) == lookup(old(self)@, id),
            old(self).next_id == u64::MAX ==> r is None && *final(self) == *old(self),
            old(self).next_id < u64::MAX ==> {
                &&& r == Some(old(self).next_id)
                &&& final(self).next_id == old(self).next_id + 1
                &&& final(self)@ == old(self)@.push(Entity { id: old(self).next_id, body: b })
            },
    {
        if self.next_id == u64::MAX {
            return None;
        }
        let id = self.next_id;
        let ghost s0 = self.entities@;
        self.entities.push(Entity { id, body: b });
        self.next_id = id + 1;
        proof {
            let s = self.entities@;
            assert forall|x: u64| !holds_id(s0, x) && x < id implies !holds_id(s, x) by {
                if holds_id(s, x) {
                    let k = choose|i: int| 0 <= i < s.len() && s[i].id == x;
                    if k < s0.len() {
                        assert(s0[k].id == x);
                    }
                }
            }
            assert forall|k: int| 0 <= k < s0.len() implies lookup(s, s0[k].id) == lookup(s0, s0[k].id) by {
                lemma_lookup_at(s0, k);
                lemma_lookup_at(s, k);
            }
            assert forall|x: u64| x < id implies #[trigger] lookup(s, x) == lookup(s0, x) by {
                if holds_id(s0, x) {
                    let k = choose|i: int| 0 <= i < s0.len() && s0[i].id == x;
                    lemma_lookup_at(s0, k);
                    lemma_lookup_at(s, k);
                }
            }
            if let Some(c) = self.craft {
                let k = choose|i: int| 0 <= i < s0.len() && s0[i].id == c;
                assert(s0[k].id == c);
            }
            if let Some(p) = self.planet {
                let k = choose|i: int| 0 <= i < s0.len() && s0[i].id == p;
                assert(s0[k].id == p);
            }
        }
        Some(id)
    }

    /// Index of the entity with identifier `id`.
    fn position(&self, id: u64) -> (r: Option<usize>)
        requires
            self.wf(),
        ensures
            match r {
                Some(k) => k < self@.len() && self@[k as int].id == id,
                None => !holds_id(self@, id),
            },
    {
        let mut k: usize = 0;
        while k < self.entities.len()
            invariant
                k <= self.entities@.len(),
                forall|i: int| 0 <= i < k ==> self.entities@[i].id != id,
            decreases self.entities@.len() - k,
        {
            if self.entities[k].id == id {
                return Some(k);
            }
            k += 1;
        }
        None
    }

    /// The live entity with identifier `id`.
    pub fn get(&self, id: u64) -> (r: Result<Entity, StoreError>)
        requires
            self.wf(),
        ensures
            match lookup(self@, id) {
                Some(e) => r == Ok::<Entity, StoreError>(e),
                None => r == Err::<Entity, StoreError>(StoreError::NotFound),
            },
    {
        match self.position(id) {
            Some(k) => {
                proof { lemma_lookup_at(self@, k as int); }
                Ok(self.entities[k])
            },
            None => Err(StoreError::NotFound),
        }
    }

    /// Removes every entity whose identifier is in `ids` (each at most once,
    /// however often it is listed), and clears a reference to a removed one.
    pub fn remove_all(&mut self, ids: &Vec<u64>)
        requires
            old(self).wf(),
        ensures
            final(self).wf(),
            final(self).next_id == old(self).next_id,
            final(self).craft == slot_after(old(self).craft, ids@),
            final(self).planet == slot_after(old(self).planet, ids@),
            forall|id: u64| #[trigger] lookup(final(self)@, id)
                == if ids@.contains(id) { None } else { lookup(old(self)@, id) },
            forall|e: Entity| #[trigger] final(self)@.contains(e)
                <==> old(self)@.contains(e) && !ids@.contains(e.id),
    {
        let ghost s = self.entities@;
        let mut kept: Vec<Entity> = Vec::new();
        let ghost mut src: Seq<int> = Seq::empty();
        let mut k: usize = 0;
        while k < self.entities.len()
            invariant
                s == self.entities@,
                *self == *old(self),
                self.wf(),
                k <= s.len(),
                src.len() == kept@.len(),
                forall|j: int| 0 <= j < src.len() ==> 0 <= #[trigger] src[j] < k
                    && kept@[j] == s[src[j]] && !ids@.contains(s[src[j]].id),
                forall|i: int| 0 <= i < k && !ids@.contains(#[trigger] s[i].id)
                    ==> exists|j: int| 0 <= j < src.len() && src[j] == i,
                ids_ascending(kept@),
                all_wf(kept@),
            decreases s.len() - k,
        {
            let e = self.entities[k];
            let ghost src0 = src;
            if !vec_has(ids, e.id) {
                proof {
                    assert forall|j: int| 0 <= j < kept@.len() implies kept@[j].id < e.id by {
                        assert(src[j] < k);
                    }
                }
                kept.push(e);
                proof {
                    let j0 = src.len() as int;
                    src = src.push(k as int);
                    assert(src[j0] == k);
                }
            }
            proof {
                assert forall|i: int| 0 <= i < k + 1 && !ids@.contains(#[trigger] s[i].id)
                    implies exists|j: int| 0 <= j < src.len() && src[j] == i by {
                    if i < k {
                        let j = choose|j: int| 0 <= j < src0.len() && src0[j] == i;
                        assert(src[j] == i);
                    } else {
                        assert(src[src.len() - 1] == i);
                    }
                }
            }
            k += 1;
        }
        proof {
            let t = kept@;
            assert forall|id: u64| #[trigger] lookup(t, id)
                == if ids@.contains(id) { None } else { lookup(s, id) } by {
                if holds_id(t, id) {
                    let j = choose|j: int| 0 <= j < t.len() && t[j].id == id;
                    lemma_lookup_at(t, j);
                    lemma_lookup_at(s, src[j]);
                } else if !ids@.contains(id) && holds_id(s, id) {
                    let i = choose|i: int| 0 <= i < s.len() && s[i].id == id;
                    let j = choose|j: int| 0 <= j < src.len() && src[j] == i;
                    assert(t[j].id == id);
                }
            }
            assert forall|e: Entity| #[trigger] t.contains(e) <==> s.contains(e) && !ids@.contains(e.id) by {
                if t.contains(e) {
                    let j = choose|j: int| 0 <= j < t.len() && t[j] == e;
                    assert(s[src[j]] == e);
                }
                if s.contains(e) && !ids@.contains(e.id) {
                    let i = choose|i: int| 0 <= i < s.len() && s[i] == e;
                    let j = choose|j: int| 0 <= j < src.len() && src[j] == i;
                    assert(t[j] == e);
                }
            }
            assert forall|j: int| 0 <= j < t.len() implies #[trigger] t[j].id < self.next_id by {
                assert(s[src[j]].id < self.next_id);
            }
        }
        self.entities = kept;
        if let Some(c) = self.craft {
            if vec_has(ids, c) {
                self.craft = None;
            }
        }
        if let Some(p) = self.planet {
            if vec_has(ids, p) {
                self.planet = None;
            }
        }
    }

    /// Removes the entity with identifier `id`, if live, and clears a
    /// reference to it.
    pub fn remove(&mut self, id: u64)
        requires
            old(self).wf(),
        ensures
            final(self).wf(),
            final(self).next_id == old(self).next_id,
            final(self).craft == slot_after(old(self).craft, seq![id]),
            final(self).planet == slot_after(old(self).planet, seq![id]),
            forall|i: u64| #[trigger] lookup(final(self)@, i)
                == if i == id { None } else { lookup(old(self)@, i) },
    {
        let ids = vec![id];
        assert(ids@ =~= seq![id]);
        self.remove_all(&ids);
        assert forall|i: u64| ids@.contains(i) <==> i == id by {
            if i == id {
                assert(ids@[0] == i);
            }
        }
    }

    /// Replaces the live entity that has `e`'s identifier by `e`.
    pub fn replace(&mut self, e: Entity) -> (r: Result<(), StoreError>)
        requires
            old(self).wf(),
            e.wf(),
            lookup(old(self)@, e.id) is Some ==> lookup(old(self)@, e.id).unwrap().body.kind == e.body.kind,
        ensures
            final(self).wf(),
            final(self).next_id == old(self).next_id,
            final(self).craft == old(self).craft,
            final(self).planet == old(self).planet,
            match lookup(old(self)@, e.id) {
                Some(_) => r is Ok && forall|i: u64| #[trigger] lookup(final(self)@, i)
                    == if i == e.id { Some(e) } else { lookup(old(self)@, i) },
                None => r == Err::<(), StoreError>(StoreError::NotFound) && *final(self) == *old(self),
            },
    {
        match self.position(e.id) {
            None => Err(StoreError::NotFound),
            Some(k) => {
                let ghost st = *self;
                proof { lemma_lookup_at(st@, k as int); }
                self.entities.set(k, e);
                proof {
                    let t = self.entities@;
                    assert(same_ids(st@, t));
                    lemma_rewrite_wf(st, t);
                    assert forall|i: u64| #[trigger] lookup(t, i)
                        == if i == e.id { Some(e) } else { lookup(st@, i) } by {
                        lemma_lookup_at(t, k as int);
                        if i != e.id && holds_id(st@, i) {
                            let j = choose|j: int| 0 <= j < st@.len() && st@[j].id == i;
                            lemma_lookup_at(st@, j);
                            lemma_lookup_at(t, j);
                        }
                    }
                }
                Ok(())
            },
        }
    }

    /// Whether an entity with identifier `id` is live.
    pub fn contains(&self, id: u64) -> (r: bool)
        requires
            self.wf(),
        ensures
            r == holds_id(self@, id),
    {
        self.position(id).is_some()
    }
}

} // verus!
