//! Broad-phase detection: every pair of collidable circles that overlap.
use vstd::prelude::*;
use crate::tuning::{POS_LIMIT, RADIUS_LIMIT};
use crate::entity::{Blueprint, Entity, Shape};
use crate::store::EntityStore;

verus! {

/// Two entities that touch this tick, by identifier (`first < second`).
#[derive(Clone, Copy, Debug, PartialEq, Eq, Structural)]
pub struct Collision {
    pub first: u64,
    pub second: u64,
}

pub open spec fn sq(v: int) -> int {
    v * v
}

/// Both collidable circles, and the distance of their centres is at most the
/// sum of their radii.
pub open spec fn overlaps(a: Blueprint, b: Blueprint) -> bool {
    &&& a.collidable
    &&& b.collidable
    &&& a.shape.is_circle()
    &&& b.shape.is_circle()
    &&& sq(a.transform.pos_x - b.transform.pos_x) + sq(a.transform.pos_y - b.transform.pos_y)
        <= sq(a.shape.size() + b.shape.size())
}

pub open spec fn pair_of(s: Seq<Entity>, i: int, j: int) -> Collision {
    Collision { first: s[i].id, second: s[j].id }
}

/// `c` names two entities of `s`, in store order, that overlap.
pub open spec fn is_collision(s: Seq<Entity>, c: Collision) -> bool {
    exists|i: int, j: int| 0 <= i < j < s.len() && overlaps(s[i].body, s[j].body)
        && c == #[trigger] pair_of(s, i, j)
}

/// `cs` is the collision set of `s`: every overlapping pair of entities of
/// `s`, each once, in store order, and nothing else.
pub open spec fn collision_set(s: Seq<Entity>, cs: Seq<Collision>) -> bool {
    &&& forall|k: int| 0 <= k < cs.len() ==> is_collision(s, #[trigger] cs[k])
    &&& forall|i: int, j: int| 0 <= i < j < s.len() && overlaps(s[i].body, s[j].body)
        ==> cs.contains(#[trigger] pair_of(s, i, j))
    &&& forall|k: int| 0 <= k < cs.len() ==> (#[trigger] cs[k]).first < cs[k].second
    &&& cs.no_duplicates()
}

/// Whether two well-formed entities overlap.
pub fn touching(a: &Blueprint, b: &Blueprint) -> (r: bool)
    requires
        a.wf(),
        b.wf(),
    ensures
        r == overlaps(*a, *b),
{
    if !(a.collidable && b.collidable && matches!(a.shape, Shape::Circle { .. })
        && matches!(b.shape, Shape::Circle { .. })) {
        return false;
    }
    let dx = a.transform.pos_x - b.transform.pos_x;
    let dy = a.transform.pos_y - b.transform.pos_y;
    let rs = a.size() + b.size();
    assert(dx * dx <= 36_000_000_000_000) by (nonlinear_arith)
        requires -2 * POS_LIMIT <= dx <= 2 * POS_LIMIT;
    assert(0 <= dx * dx && 0 <= dy * dy) by (nonlinear_arith);
    assert(dy * dy <= 36_000_000_000_000) by (nonlinear_arith)
        requires -2 * POS_LIMIT <= dy <= 2 * POS_LIMIT;
    assert(rs * rs <= 4_000_000_000_000) by (nonlinear_arith)
        requires 0 <= rs <= 2 * RADIUS_LIMIT;
    dx * dx + dy * dy <= rs * rs
}

/// Every overlapping pair of live entities, each once, in store order.
pub fn find_collisions(store: &EntityStore) -> (r: Vec<Collision>)
    requires
        store.wf(),
    ensures
        collision_set(store@, r@),
{
    let ghost s = store@;
    let n = store.entities.len();
    let mut out: Vec<Collision> = Vec::new();
    let ghost mut idx: Seq<(int, int)> = Seq::empty();
    let mut i: usize = 0;
    while i < n
        invariant
            s == store@,
            store.wf(),
            n == s.len(),
            i <= n,
            idx.len() == out@.len(),
            forall|k: int| 0 <= k < idx.len() ==> 0 <= (#[trigger] idx[k]).0 < idx[k].1 < n
                && idx[k].0 < i && overlaps(s[idx[k].0].body, s[idx[k].1].body)
                && out@[k] == pair_of(s, idx[k].0, idx[k].1),
            forall|k1: int, k2: int| 0 <= k1 < k2 < idx.len() ==>
                (#[trigger] idx[k1]).0 < (#[trigger] idx[k2]).0
                || (idx[k1].0 == idx[k2].0 && idx[k1].1 < idx[k2].1),
            forall|a: int, b: int| 0 <= a < b < n && a < i && overlaps(s[a].body, s[b].body)
                ==> exists|k: int| 0 <= k < idx.len() && #[trigger] idx[k] == (a, b),
        decreases n - i,
    {
        let mut j: usize = i + 1;
        while j < n
            invariant
                s == store@,
                store.wf(),
                n == s.len(),
                i < n,
                i + 1 <= j <= n,
                idx.len() == out@.len(),
                forall|k: int| 0 <= k < idx.len() ==> 0 <= (#[trigger] idx[k]).0 < idx[k].1 < n
                    && (idx[k].0 < i || (idx[k].0 == i && idx[k].1 < j))
                    && overlaps(s[idx[k].0].body, s[idx[k].1].body)
                    && out@[k] == pair_of(s, idx[k].0, idx[k].1),
                forall|k1: int, k2: int| 0 <= k1 < k2 < idx.len() ==>
                    (#[trigger] idx[k1]).0 < (#[trigger] idx[k2]).0
                    || (idx[k1].0 == idx[k2].0 && idx[k1].1 < idx[k2].1),
                forall|a: int, b: int| 0 <= a < b < n && (a < i || (a == i && b < j))
                    && overlaps(s[a].body, s[b].body)
                    ==> exists|k: int| 0 <= k < idx.len() && #[trigger] idx[k] == (a, b),
            decreases n - j,
        {
            let ei = store.entities[i];
            let ej = store.entities[j];
            assert(s[i as int].wf() && s[j as int].wf());
            let ghost idx0 = idx;
            if touching(&ei.body, &ej.body) {
                out.push(Collision { first: ei.id, second: ej.id });
                proof {
                    idx = idx.push((i as int, j as int));
                    assert forall|k: int| 0 <= k < idx.len() implies 0 <= (#[trigger] idx[k]).0 < idx[k].1 < n
                        && (idx[k].0 < i || (idx[k].0 == i && idx[k].1 < j + 1))
                        && overlaps(s[idx[k].0].body, s[idx[k].1].body)
                        && out@[k] == pair_of(s, idx[k].0, idx[k].1) by {
                        if k < idx0.len() {
                            assert(idx[k] == idx0[k]);
                        }
                    }
                    assert forall|k1: int, k2: int| 0 <= k1 < k2 < idx.len() implies
                        (#[trigger] idx[k1]).0 < (#[trigger] idx[k2]).0
                        || (idx[k1].0 == idx[k2].0 && idx[k1].1 < idx[k2].1) by {
                        assert(idx[k1] == idx0[k1]);
                        if k2 < idx0.len() {
                            assert(idx[k2] == idx0[k2]);
                        }
                    }
                }
            }
            proof {
                assert forall|a: int, b: int| 0 <= a < b < n && (a < i || (a == i && b < j + 1))
                    && overlaps(s[a].body, s[b].body)
                    implies exists|k: int| 0 <= k < idx.len() && #[trigger] idx[k] == (a, b) by {
                    if a < i || b < j {
                        let k = choose|k: int| 0 <= k < idx0.len() && #[trigger] idx0[k] == (a, b);
                        assert(idx[k] == (a, b));
                    } else {
                        assert(idx[idx.len() - 1] == (a, b));
                    }
                }
            }
            j += 1;
        }
        i += 1;
    }
    proof {
        let r = out@;
        assert forall|k: int| 0 <= k < out@.len() implies is_collision(s, #[trigger] out@[k]) by {
            let a = idx[k].0;
            let b = idx[k].1;
            assert(0 <= a < b < s.len() && overlaps(s[a].body, s[b].body));
            assert(out@[k] == pair_of(store@, a, b));
        }
        assert forall|a: int, b: int| 0 <= a < b < s.len() && overlaps(s[a].body, s[b].body)
            implies r.contains(#[trigger] pair_of(s, a, b)) by {
            let k = choose|k: int| 0 <= k < idx.len() && #[trigger] idx[k] == (a, b);
            assert(r[k] == pair_of(s, a, b));
        }
        assert forall|k: int| 0 <= k < r.len() implies (#[trigger] r[k]).first < r[k].second by {
            assert(s[idx[k].0].id < s[idx[k].1].id);
        }
        assert forall|k1: int, k2: int| 0 <= k1 < r.len() && 0 <= k2 < r.len() && k1 != k2
            implies r[k1] != r[k2] by {
            let (a1, b1) = idx[k1];
            let (a2, b2) = idx[k2];
            if k1 < k2 {
                assert(idx[k1].0 < idx[k2].0 || (idx[k1].0 == idx[k2].0 && idx[k1].1 < idx[k2].1));
            } else {
                assert(idx[k2].0 < idx[k1].0 || (idx[k2].0 == idx[k1].0 && idx[k2].1 < idx[k1].1));
            }
            if a1 != a2 {
                assert(s[a1].id != s[a2].id);
            } else {
                assert(s[b1].id != s[b2].id);
            }
        }
    }
    out
}

} // verus!
