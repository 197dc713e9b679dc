//! The per-tick sweeps: lifetimes count down, meteors shrink, and what runs
//! out is removed.
use vstd::prelude::*;
use crate::tuning::{METEOR_DESTROY_RADIUS, RADIUS_LIMIT};
use crate::entity::{Blueprint, Entity, Kind, Shape};
use crate::store::{EntityStore, lookup, lemma_lookup_at, holds_id, same_ids, lemma_rewrite_wf, all_wf};

verus! {

/// A lifetime that ends this tick.
pub open spec fn expires(b: Blueprint) -> bool {
    match b.ttl {
        Some(t) => t <= 1,
        None => false,
    }
}

/// One tick off the lifetime, if any.
pub open spec fn aged(b: Blueprint) -> Blueprint {
    match b.ttl {
        Some(t) => Blueprint { ttl: Some((t - 1) as u64), ..b },
        None => b,
    }
}

/// Shrink rate of a meteor of radius `r`, in parts per million per tick:
/// 0.0005 plus 0.03 times a size factor that is 0.3 at the destroy radius,
/// falls to zero at 0.0067 and stays there.
pub open spec fn decay_rate(r: int) -> int {
    let factor = if r >= METEOR_DESTROY_RADIUS {
        let rel = (r - METEOR_DESTROY_RADIUS) * 1_000_000 / 19_000;
        if rel < 300_000 { 300_000 - rel } else { 0 }
    } else {
        300_000 + (METEOR_DESTROY_RADIUS - r) * 1_000_000 / 19_000
    };
    500 + factor * 3 / 100
}

/// Radius after one tick of decay; the loss is rounded up, so it is at
/// least one unit.
pub open spec fn decayed(r: int) -> int {
    r - (r * decay_rate(r) + 999_999) / 1_000_000
}

/// A meteor that shrinks below the destroy radius this tick.
pub open spec fn decays_away(b: Blueprint) -> bool {
    b.kind == Kind::Meteor && decayed(b.shape.size() as int) < METEOR_DESTROY_RADIUS
}

/// A meteor after one tick of decay; other entities as they are.
pub open spec fn shrunk(b: Blueprint) -> Blueprint {
    if b.kind == Kind::Meteor {
        match b.shape {
            Shape::Circle { radius, color } => Blueprint {
                shape: Shape::Circle { radius: decayed(radius as int) as i64, color },
                ..b
            },
            Shape::Text { .. } => b,
        }
    } else {
        b
    }
}

/// A meteor's radius strictly falls each tick and stays at least zero;
/// from two units up it stays positive.
pub proof fn lemma_decay_floor(r: int)
    requires
        1 <= r <= RADIUS_LIMIT,
    ensures
        0 <= decayed(r) < r,
        r >= 2 ==> decayed(r) > 0,
{
    let rate = decay_rate(r);
    if r < METEOR_DESTROY_RADIUS {
        assert((METEOR_DESTROY_RADIUS - r) * 1_000_000 / 19_000 <= 52_579);
    }
    assert(500 <= rate <= 11_078);
    assert(1 <= (r * rate + 999_999) / 1_000_000 <= r) by (nonlinear_arith)
        requires 1 <= r, 500 <= rate <= 11_078;
    if r >= 2 {
        assert((r * rate + 999_999) / 1_000_000 < r) by (nonlinear_arith)
            requires 2 <= r, 500 <= rate <= 11_078;
    }
}

/// Each decay sweep either removes a meteor (its radius fell below the
/// destroy radius) or leaves it strictly smaller, at a radius of at least
/// the destroy radius, so never at zero or below.
pub proof fn lemma_meteor_shrinks(b: Blueprint)
    requires
        b.wf(),
        b.kind == Kind::Meteor,
    ensures
        decays_away(b) || {
            &&& shrunk(b).shape.size() < b.shape.size()
            &&& shrunk(b).shape.size() >= METEOR_DESTROY_RADIUS
        },
{
    lemma_decay_floor(b.shape.size() as int);
}

fn decayed_exec(r: i64) -> (d: i64)
    requires
        1 <= r <= RADIUS_LIMIT,
    ensures
        d == decayed(r as int),
        0 <= d < r,
{
    proof { lemma_decay_floor(r as int); }
    let factor: i64 = if r >= METEOR_DESTROY_RADIUS {
        let rel = (r - METEOR_DESTROY_RADIUS) * 1_000_000 / 19_000;
        if rel < 300_000 { 300_000 - rel } else { 0 }
    } else {
        300_000 + (METEOR_DESTROY_RADIUS - r) * 1_000_000 / 19_000
    };
    let rate = 500 + factor * 3 / 100;
    assert(r * rate <= 20_000_000_000) by (nonlinear_arith)
        requires 1 <= r <= 1_000_000, 0 <= rate <= 20_000;
    r - (r * rate + 999_999) / 1_000_000
}

/// Looking up an identifier in a sequence rewritten in place (same
/// identifiers at each index) finds the rewritten entity at the same index.
pub proof fn lemma_lookup_rewrite(s: Seq<Entity>, t: Seq<Entity>, id: u64)
    requires
        crate::store::ids_ascending(s),
        s.len() == t.len(),
        forall|i: int| 0 <= i < s.len() ==> #[trigger] t[i].id == s[i].id,
    ensures
        lookup(s, id) is None ==> lookup(t, id) is None,
        lookup(s, id) is Some ==> exists|i: int| 0 <= i < s.len() && lookup(s, id) == Some(s[i])
            && #[trigger] lookup(t, id) == Some(t[i]),
{
    if holds_id(s, id) {
        let i = choose|i: int| 0 <= i < s.len() && s[i].id == id;
        lemma_lookup_at(s, i);
        assert(crate::store::ids_ascending(t)) by {
            assert forall|a: int, b: int| 0 <= a < b < t.len() implies t[a].id < t[b].id by {
                assert(t[a].id == s[a].id && t[b].id == s[b].id);
            }
        }
        lemma_lookup_at(t, i);
    } else {
        if holds_id(t, id) {
            let i = choose|i: int| 0 <= i < t.len() && t[i].id == id;
            assert(s[i].id == id);
        }
    }
}

/// Identifiers of the entities whose lifetime ends this tick.
fn expiring_ids(store: &EntityStore) -> (ids: Vec<u64>)
    requires
        store.wf(),
    ensures
        forall|id: u64| #[trigger] ids@.contains(id) <==>
            lookup(store@, id) is Some && expires(lookup(store@, id).unwrap().body),
{
    let ghost s = store@;
    let mut ids: Vec<u64> = Vec::new();
    let mut k: usize = 0;
    while k < store.entities.len()
        invariant
            s == store@,
            store.wf(),
            k <= s.len(),
            forall|id: u64| #[trigger] ids@.contains(id) <==>
                exists|i: int| 0 <= i < k && s[i].id == id && expires(s[i].body),
        decreases s.len() - k,
    {
        let e = store.entities[k];
        let expired = match e.body.ttl {
            Some(t) => t <= 1,
            None => false,
        };
        let ghost before = ids@;
        if expired {
            ids.push(e.id);
        }
        proof {
            assert forall|id: u64| #[trigger] ids@.contains(id) <==>
                exists|i: int| 0 <= i < k + 1 && s[i].id == id && expires(s[i].body) by {
                if ids@.contains(id) && !before.contains(id) {
                    assert(s[k as int].id == id);
                }
                if exists|i: int| 0 <= i < k + 1 && s[i].id == id && expires(s[i].body) {
                    let i = choose|i: int| 0 <= i < k + 1 && s[i].id == id && expires(s[i].body);
                    if i < k {
                        assert(before.contains(id));
                        let j = choose|j: int| 0 <= j < before.len() && before[j] == id;
                        assert(ids@[j] == id);
                    } else {
                        assert(ids@.last() == id);
                    }
                }
            }
        }
        k += 1;
    }
    proof {
        assert forall|id: u64| #[trigger] ids@.contains(id) <==>
            lookup(s, id) is Some && expires(lookup(s, id).unwrap().body) by {
            if exists|i: int| 0 <= i < s.len() && s[i].id == id && expires(s[i].body) {
                let i = choose|i: int| 0 <= i < s.len() && s[i].id == id && expires(s[i].body);
                lemma_lookup_at(s, i);
            }
            if lookup(s, id) is Some {
                let i = choose|i: int| 0 <= i < s.len() && s[i].id == id;
                lemma_lookup_at(s, i);
            }
        }
    }
    ids
}

/// A reference slot after a sweep: kept while its entity is still live.
pub open spec fn slot_kept(slot: Option<u64>, s: Seq<Entity>) -> Option<u64> {
    match slot {
        Some(id) => if lookup(s, id) is Some { slot } else { None },
        None => None,
    }
}

/// Removes the entities whose lifetime ends this tick and counts down the
/// others' lifetimes.
pub fn age_all(store: &mut EntityStore)
    requires
        old(store).wf(),
    ensures
        final(store).wf(),
        final(store).next_id == old(store).next_id,
        forall|id: u64| #[trigger] lookup(final(store)@, id) == match lookup(old(store)@, id) {
            Some(e) => if expires(e.body) { None } else { Some(Entity { id: e.id, body: aged(e.body) }) },
            None => None,
        },
        final(store).craft == slot_kept(old(store).craft, final(store)@),
        final(store).planet == slot_kept(old(store).planet, final(store)@),
{
    let ghost s0 = store@;
    let ids = expiring_ids(store);
    store.remove_all(&ids);
    let ghost st = *store;
    let mut out: Vec<Entity> = Vec::new();
    let mut k: usize = 0;
    while k < store.entities.len()
        invariant
            *store == st,
            st.wf(),
            k <= st@.len(),
            out@.len() == k,
            all_wf(out@),
            forall|i: int| 0 <= i < k ==> #[trigger] out@[i]
                == (Entity { id: st@[i].id, body: aged(st@[i].body) }),
            forall|id: u64| #[trigger] lookup(st@, id) == if ids@.contains(id) { None } else { lookup(s0, id) },
            forall|id: u64| #[trigger] ids@.contains(id) <==>
                lookup(s0, id) is Some && expires(lookup(s0, id).unwrap().body),
        decreases st@.len() - k,
    {
        let e = store.entities[k];
        assert(st@[k as int].wf());
        let body = match e.body.ttl {
            Some(t) => Blueprint { ttl: Some(if t > 0 { t - 1 } else { 0 }), ..e.body },
            None => e.body,
        };
        proof {
            if let Some(t) = e.body.ttl {
                if t == 0 {
                    lemma_lookup_at(st@, k as int);
                    assert(lookup(st@, e.id) == Some(e));
                    assert(!ids@.contains(e.id));
                    assert(lookup(s0, e.id) == Some(e));
                }
            }
        }
        out.push(Entity { id: e.id, body });
        k += 1;
    }
    proof {
        assert(same_ids(st@, out@));
        lemma_rewrite_wf(st, out@);
        assert forall|id: u64| #[trigger] lookup(out@, id) == match lookup(s0, id) {
            Some(e) => if expires(e.body) { None } else { Some(Entity { id: e.id, body: aged(e.body) }) },
            None => None,
        } by {
            lemma_lookup_rewrite(st@, out@, id);
            if let Some(e) = lookup(s0, id) {
                lemma_lookup_at(s0, choose|i: int| 0 <= i < s0.len() && s0[i].id == id);
            }
        }
        assert forall|id: u64| lookup(out@, id) is Some <==> lookup(st@, id) is Some by {
            lemma_lookup_rewrite(st@, out@, id);
        }
    }
    store.entities = out;
}

/// Identifiers of the meteors that shrink below the destroy radius this tick.
fn fading_ids(store: &EntityStore) -> (ids: Vec<u64>)
    requires
        store.wf(),
    ensures
        forall|id: u64| #[trigger] ids@.contains(id) <==>
            lookup(store@, id) is Some && decays_away(lookup(store@, id).unwrap().body),
{
    let ghost s = store@;
    let mut ids: Vec<u64> = Vec::new();
    let mut k: usize = 0;
    while k < store.entities.len()
        invariant
            s == store@,
            store.wf(),
            k <= s.len(),
            forall|id: u64| #[trigger] ids@.contains(id) <==>
                exists|i: int| 0 <= i < k && s[i].id == id && decays_away(s[i].body),
        decreases s.len() - k,
    {
        let e = store.entities[k];
        assert(s[k as int].wf());
        let fading = match e.body.shape {
            Shape::Circle { radius, .. } => e.body.kind == Kind::Meteor && decayed_exec(radius) < METEOR_DESTROY_RADIUS,
            Shape::Text { .. } => false,
        };
        let ghost before = ids@;
        if fading {
            ids.push(e.id);
        }
        proof {
            assert forall|id: u64| #[trigger] ids@.contains(id) <==>
                exists|i: int| 0 <= i < k + 1 && s[i].id == id && decays_away(s[i].body) by {
                if ids@.contains(id) && !before.contains(id) {
                    assert(s[k as int].id == id);
                }
                if exists|i: int| 0 <= i < k + 1 && s[i].id == id && decays_away(s[i].body) {
                    let i = choose|i: int| 0 <= i < k + 1 && s[i].id == id && decays_away(s[i].body);
                    if i < k {
                        assert(before.contains(id));
                        let j = choose|j: int| 0 <= j < before.len() && before[j] == id;
                        assert(ids@[j] == id);
                    } else {
                        assert(ids@.last() == id);
                    }
                }
            }
        }
        k += 1;
    }
    proof {
        assert forall|id: u64| #[trigger] ids@.contains(id) <==>
            lookup(s, id) is Some && decays_away(lookup(s, id).unwrap().body) by {
            if exists|i: int| 0 <= i < s.len() && s[i].id == id && decays_away(s[i].body) {
                let i = choose|i: int| 0 <= i < s.len() && s[i].id == id && decays_away(s[i].body);
                lemma_lookup_at(s, i);
            }
            if lookup(s, id) is Some {
                let i = choose|i: int| 0 <= i < s.len() && s[i].id == id;
                lemma_lookup_at(s, i);
            }
        }
    }
    ids
}

/// Shrinks every meteor by one tick of decay and removes those that fall
/// below the destroy radius; every meteor left is at least that large.
pub fn decay_all(store: &mut EntityStore)
    requires
        old(store).wf(),
    ensures
        final(store).wf(),
        final(store).next_id == old(store).next_id,
        forall|id: u64| #[trigger] lookup(final(store)@, id) == match lookup(old(store)@, id) {
            Some(e) => if decays_away(e.body) { None } else { Some(Entity { id: e.id, body: shrunk(e.body) }) },
            None => None,
        },
        final(store).craft == slot_kept(old(store).craft, final(store)@),
        final(store).planet == slot_kept(old(store).planet, final(store)@),
        crate::resolve::all_meteors_ready(final(store)@),
{
    let ghost s0 = store@;
    let ids = fading_ids(store);
    store.remove_all(&ids);
    let ghost st = *store;
    let mut out: Vec<Entity> = Vec::new();
    let mut k: usize = 0;
    while k < store.entities.len()
        invariant
            *store == st,
            st.wf(),
            k <= st@.len(),
            out@.len() == k,
            all_wf(out@),
            forall|i: int| 0 <= i < k ==> #[trigger] out@[i]
                == (Entity { id: st@[i].id, body: shrunk(st@[i].body) }),
            forall|i: int| 0 <= i < k ==> crate::resolve::meteor_ready(#[trigger] out@[i].body),
            forall|id: u64| #[trigger] lookup(st@, id) == if ids@.contains(id) { None } else { lookup(s0, id) },
            forall|id: u64| #[trigger] ids@.contains(id) <==>
                lookup(s0, id) is Some && decays_away(lookup(s0, id).unwrap().body),
        decreases st@.len() - k,
    {
        let e = store.entities[k];
        assert(st@[k as int].wf());
        proof {
            lemma_lookup_at(st@, k as int);
            assert(lookup(st@, e.id) == Some(e));
            assert(!ids@.contains(e.id));
            assert(lookup(s0, e.id) == Some(e));
        }
        let body = if e.body.kind == Kind::Meteor {
            match e.body.shape {
                Shape::Circle { radius, color } => Blueprint {
                    shape: Shape::Circle { radius: decayed_exec(radius), color },
                    ..e.body
                },
                Shape::Text { .. } => e.body,
            }
        } else {
            e.body
        };
        out.push(Entity { id: e.id, body });
        k += 1;
    }
    proof {
        assert(same_ids(st@, out@));
        lemma_rewrite_wf(st, out@);
        assert forall|id: u64| #[trigger] lookup(out@, id) == match lookup(s0, id) {
            Some(e) => if decays_away(e.body) { None } else { Some(Entity { id: e.id, body: shrunk(e.body) }) },
            None => None,
        } by {
            lemma_lookup_rewrite(st@, out@, id);
            if let Some(e) = lookup(s0, id) {
                lemma_lookup_at(s0, choose|i: int| 0 <= i < s0.len() && s0[i].id == id);
            }
        }
        assert forall|id: u64| lookup(out@, id) is Some <==> lookup(st@, id) is Some by {
            lemma_lookup_rewrite(st@, out@, id);
        }
    }
    store.entities = out;
}

/// What becomes of one entity in the motion phase of a tick: it moves, its
/// lifetime runs down, and a meteor shrinks; `None` once it is removed.
pub open spec fn advanced(e: Entity) -> Option<Entity> {
    let moved = crate::physics::integrated(e.body);
    if expires(moved) {
        None
    } else if decays_away(aged(moved)) {
        None
    } else {
        Some(Entity { id: e.id, body: shrunk(aged(moved)) })
    }
}

/// The motion phase of a tick: every entity moves, lifetimes run down, and
/// meteors shrink; what runs out is removed. Afterwards every meteor is at
/// least the destroy radius.
pub fn advance_all(store: &mut EntityStore)
    requires
        old(store).wf(),
    ensures
        final(store).wf(),
        final(store).next_id == old(store).next_id,
        forall|id: u64| #[trigger] lookup(final(store)@, id) == match lookup(old(store)@, id) {
            Some(e) => advanced(e),
            None => None,
        },
        final(store).craft == slot_kept(old(store).craft, final(store)@),
        final(store).planet == slot_kept(old(store).planet, final(store)@),
        crate::resolve::all_meteors_ready(final(store)@),
{
    let ghost s0 = store@;
    crate::physics::integrate_all(store);
    let ghost s1 = store@;
    age_all(store);
    let ghost s2 = store@;
    decay_all(store);
    proof {
        assert forall|id: u64| #[trigger] lookup(store@, id) == match lookup(s0, id) {
            Some(e) => advanced(e),
            None => None,
        } by {
            lemma_advance_one(s0, s1, s2, store@, id);
        }
        if let Some(c) = store.craft {
            lemma_advance_one(s0, s1, s2, store@, c);
        }
        if let Some(p) = store.planet {
            lemma_advance_one(s0, s1, s2, store@, p);
        }
    }
}

proof fn lemma_advance_one(s0: Seq<Entity>, s1: Seq<Entity>, s2: Seq<Entity>, s3: Seq<Entity>, id: u64)
    requires
        crate::store::ids_ascending(s0),
        s1.len() == s0.len(),
        forall|i: int| 0 <= i < s0.len() ==> #[trigger] s1[i]
            == (Entity { id: s0[i].id, body: crate::physics::integrated(s0[i].body) }),
        forall|x: u64| #[trigger] lookup(s2, x) == match lookup(s1, x) {
            Some(e) => if expires(e.body) { None } else { Some(Entity { id: e.id, body: aged(e.body) }) },
            None => None,
        },
        forall|x: u64| #[trigger] lookup(s3, x) == match lookup(s2, x) {
            Some(e) => if decays_away(e.body) { None } else { Some(Entity { id: e.id, body: shrunk(e.body) }) },
            None => None,
        },
    ensures
        lookup(s3, id) == match lookup(s0, id) {
            Some(e) => advanced(e),
            None => None,
        },
        lookup(s2, id) is None ==> lookup(s3, id) is None,
{
    lemma_lookup_rewrite(s0, s1, id);
    assert(lookup(s2, id) == match lookup(s1, id) {
        Some(e) => if expires(e.body) { None } else { Some(Entity { id: e.id, body: aged(e.body) }) },
        None => None,
    });
    assert(lookup(s3, id) == match lookup(s2, id) {
        Some(e) => if decays_away(e.body) { None } else { Some(Entity { id: e.id, body: shrunk(e.body) }) },
        None => None,
    });
    if let Some(e) = lookup(s0, id) {
        let i = choose|i: int| 0 <= i < s0.len() && lookup(s0, id) == Some(s0[i])
            && #[trigger] lookup(s1, id) == Some(s1[i]);
        assert(s1[i] == Entity { id: s0[i].id, body: crate::physics::integrated(s0[i].body) });
    }
}

} // verus!
