//! Per-tick integration, the screen-wrap rule, and the craft's controls.
use vstd::prelude::*;
use crate::tuning::{SCALE, POS_LIMIT, VEL_LIMIT, ACC_LIMIT, RADIUS_LIMIT, ACC_STEP, MAX_ACC, MAX_SPEED};
use crate::entity::{Blueprint, Entity, Transform};
use crate::store::{EntityStore, all_wf, lemma_rewrite_wf};

verus! {

/// `v` limited to `-m..=m`.
pub open spec fn clamp_spec(v: int, m: int) -> int {
    if v > m { m } else if v < -m { -m } else { v }
}

/// How far outside the world an entity of radius `size` may go: 1.1 times
/// its radius, rounded down.
pub open spec fn margin(size: int) -> int {
    size * 11 / 10
}

/// The screen-wrap rule on one axis: beyond the margin on one side, the
/// entity reappears just inside the other side, offset by its own size.
pub open spec fn wrapped(pos: int, size: int) -> int {
    if pos > SCALE + margin(size) {
        -size
    } else if pos < -margin(size) {
        SCALE + size
    } else {
        pos
    }
}

/// One tick of motion: velocity gains acceleration (within the world speed
/// limit), position gains velocity, then wraps.
pub open spec fn integrated(b: Blueprint) -> Blueprint {
    let t = b.transform;
    let vx = clamp_spec(t.vel_x + t.acc_x, VEL_LIMIT as int);
    let vy = clamp_spec(t.vel_y + t.acc_y, VEL_LIMIT as int);
    Blueprint {
        transform: Transform {
            pos_x: wrapped(t.pos_x + vx, b.shape.size() as int) as i64,
            pos_y: wrapped(t.pos_y + vy, b.shape.size() as int) as i64,
            vel_x: vx as i64,
            vel_y: vy as i64,
            acc_x: t.acc_x,
            acc_y: t.acc_y,
        },
        ..b
    }
}

/// `v` limited to `-m..=m`.
pub fn clamp(v: i64, m: i64) -> (r: i64)
    requires
        m >= 0,
    ensures
        r == clamp_spec(v as int, m as int),
{
    if v > m {
        m
    } else if v < -m {
        -m
    } else {
        v
    }
}

/// The screen-wrap rule on one axis.
pub fn wrap_axis(pos: i64, size: i64) -> (r: i64)
    requires
        0 <= size <= RADIUS_LIMIT,
        -POS_LIMIT - VEL_LIMIT <= pos <= POS_LIMIT + VEL_LIMIT,
    ensures
        r == wrapped(pos as int, size as int),
        -POS_LIMIT <= r <= POS_LIMIT,
{
    let m = size * 11 / 10;
    if pos > SCALE + m {
        -size
    } else if pos < -m {
        SCALE + size
    } else {
        pos
    }
}

/// Wrapping lands within the margins, and wrapping an already wrapped
/// position changes nothing.
pub proof fn lemma_wrap_idempotent(pos: int, size: int)
    requires
        0 <= size,
    ensures
        wrapped(wrapped(pos, size), size) == wrapped(pos, size),
        -margin(size) <= wrapped(pos, size) <= SCALE + margin(size),
{
    assert(margin(size) >= size);
}

/// One tick of motion of one entity.
pub fn integrate(b: Blueprint) -> (r: Blueprint)
    requires
        b.wf(),
    ensures
        r == integrated(b),
        r.wf(),
{
    let t = b.transform;
    let size = b.size();
    let vx = clamp(t.vel_x + t.acc_x, VEL_LIMIT);
    let vy = clamp(t.vel_y + t.acc_y, VEL_LIMIT);
    Blueprint {
        transform: Transform {
            pos_x: wrap_axis(t.pos_x + vx, size),
            pos_y: wrap_axis(t.pos_y + vy, size),
            vel_x: vx,
            vel_y: vy,
            acc_x: t.acc_x,
            acc_y: t.acc_y,
        },
        ..b
    }
}

/// Moves every entity of the store by one tick.
pub fn integrate_all(store: &mut EntityStore)
    requires
        old(store).wf(),
    ensures
        final(store).wf(),
        final(store).next_id == old(store).next_id,
        final(store).craft == old(store).craft,
        final(store).planet == old(store).planet,
        final(store)@.len() == old(store)@.len(),
        forall|i: int| 0 <= i < old(store)@.len() ==> #[trigger] final(store)@[i]
            == (Entity { id: old(store)@[i].id, body: integrated(old(store)@[i].body) }),
{
    let ghost st = *store;
    let mut out: Vec<Entity> = Vec::new();
    let mut k: usize = 0;
    while k < store.entities.len()
        invariant
            *store == st,
            st.wf(),
            k <= st@.len(),
            out@.len() == k,
            all_wf(out@),
            forall|i: int| 0 <= i < k ==> #[trigger] out@[i]
                == (Entity { id: st@[i].id, body: integrated(st@[i].body) }),
        decreases st@.len() - k,
    {
        let e = store.entities[k];
        assert(st@[k as int].wf());
        out.push(Entity { id: e.id, body: integrate(e.body) });
        k += 1;
    }
    proof { lemma_rewrite_wf(st, out@); }
    store.entities = out;
}

/// A direction of the craft's controls.
#[derive(Clone, Copy, Debug, PartialEq, Eq, Structural)]
pub enum Direction {
    Up,
    Down,
    Left,
    Right,
}

/// The player's held controls.
#[derive(Clone, Copy, Debug, PartialEq, Eq, Structural)]
pub struct Controls {
    pub left_right: Option<Direction>,
    pub up_down: Option<Direction>,
    pub shooting: bool,
}

impl Controls {
    pub open spec fn none() -> Controls {
        Controls { left_right: None, up_down: None, shooting: false }
    }

    /// Nothing held.
    pub fn new() -> (r: Controls)
        ensures
            r == (Controls { left_right: None, up_down: None, shooting: false }),
    {
        Controls { left_right: None, up_down: None, shooting: false }
    }

    /// A direction key went down: it becomes the held direction of its axis.
    pub fn press(&mut self, dir: Direction)
        ensures
            match dir {
                Direction::Up | Direction::Down =>
                    *final(self) == Controls { up_down: Some(dir), ..*old(self) },
                Direction::Left | Direction::Right =>
                    *final(self) == Controls { left_right: Some(dir), ..*old(self) },
            },
    {
        match dir {
            Direction::Up | Direction::Down => self.up_down = Some(dir),
            Direction::Left | Direction::Right => self.left_right = Some(dir),
        }
    }

    /// A direction key went up: its axis is released if it held that
    /// direction.
    pub fn release(&mut self, dir: Direction)
        ensures
            match dir {
                Direction::Up | Direction::Down => *final(self) == if old(self).up_down == Some(dir) {
                    Controls { up_down: None, ..*old(self) }
                } else {
                    *old(self)
                },
                Direction::Left | Direction::Right => *final(self) == if old(self).left_right == Some(dir) {
                    Controls { left_right: None, ..*old(self) }
                } else {
                    *old(self)
                },
            },
    {
        match dir {
            Direction::Up | Direction::Down => {
                if self.up_down == Some(dir) {
                    self.up_down = None;
                }
            },
            Direction::Left | Direction::Right => {
                if self.left_right == Some(dir) {
                    self.left_right = None;
                }
            },
        }
    }
}

/// Acceleration moved one step toward zero, never past it.
pub open spec fn relaxed(a: int) -> int {
    if a > ACC_STEP { a - ACC_STEP } else if a < -ACC_STEP { a + ACC_STEP } else { 0 }
}

/// Acceleration on one axis after a tick of control: a step toward the held
/// direction (`neg` lowers it, `pos` raises it), or relaxed toward zero.
pub open spec fn nudged(a: int, held: Option<Direction>, neg: Direction, pos: Direction) -> int {
    match held {
        Some(d) => if d == neg { a - ACC_STEP } else if d == pos { a + ACC_STEP } else { relaxed(a) },
        None => relaxed(a),
    }
}

/// The craft's transform after a tick of control: accelerations nudged and
/// limited to `MAX_ACC`, speeds limited to `MAX_SPEED`.
pub open spec fn steered(t: Transform, c: Controls) -> Transform {
    Transform {
        acc_x: clamp_spec(nudged(t.acc_x as int, c.left_right, Direction::Left, Direction::Right), MAX_ACC as int) as i64,
        acc_y: clamp_spec(nudged(t.acc_y as int, c.up_down, Direction::Up, Direction::Down), MAX_ACC as int) as i64,
        vel_x: clamp_spec(t.vel_x as int, MAX_SPEED as int) as i64,
        vel_y: clamp_spec(t.vel_y as int, MAX_SPEED as int) as i64,
        ..t
    }
}

fn nudge(a: i64, held: Option<Direction>, neg: Direction, pos: Direction) -> (r: i64)
    requires
        -ACC_LIMIT <= a <= ACC_LIMIT,
    ensures
        r == clamp_spec(nudged(a as int, held, neg, pos), MAX_ACC as int),
{
    let n = match held {
        Some(d) => if d == neg { a - ACC_STEP } else if d == pos { a + ACC_STEP } else { relax(a) },
        None => relax(a),
    };
    clamp(n, MAX_ACC)
}

fn relax(a: i64) -> (r: i64)
    requires
        -ACC_LIMIT <= a <= ACC_LIMIT,
    ensures
        r == relaxed(a as int),
{
    if a > ACC_STEP {
        a - ACC_STEP
    } else if a < -ACC_STEP {
        a + ACC_STEP
    } else {
        0
    }
}

/// One tick of control on the craft's transform.
pub fn steer(t: Transform, c: Controls) -> (r: Transform)
    requires
        t.wf(),
    ensures
        r == steered(t, c),
        r.wf(),
{
    Transform {
        acc_x: nudge(t.acc_x, c.left_right, Direction::Left, Direction::Right),
        acc_y: nudge(t.acc_y, c.up_down, Direction::Up, Direction::Down),
        vel_x: clamp(t.vel_x, MAX_SPEED),
        vel_y: clamp(t.vel_y, MAX_SPEED),
        ..t
    }
}

} // verus!
