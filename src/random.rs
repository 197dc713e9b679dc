//! The simulation's single seedable random generator, from the rand crate.
use vstd::prelude::*;
use rand::rngs::StdRng;
use rand::{Rng, SeedableRng};

verus! {

/// rand's standard generator (`rand::rngs::StdRng`), held as an opaque value.
#[verifier::external_type_specification]
#[verifier::external_body]
pub struct ExStdRng(rand::rngs::StdRng);

/// Relies on rand_core's `SeedableRng::seed_from_u64` for `StdRng`: a
/// generator determined by the seed.
#[verifier::external_body]
pub(crate) fn seeded(seed: u64) -> (r: StdRng) {
    StdRng::seed_from_u64(seed)
}

/// Relies on rand's `Rng::gen_range` on `i64` (rand 0.7): a value drawn from
/// `low..high`; it panics unless `low < high`.
#[verifier::external_body]
pub(crate) fn draw_below(rng: &mut StdRng, low: i64, high: i64) -> (r: i64)
    requires
        low < high,
    ensures
        low <= r < high,
{
    rng.gen_range(low, high)
}

/// `v` is a fair outcome of drawing between `a` and `b`: `a` itself when the
/// two are equal, otherwise a value from the lower up to (not including) the
/// higher.
pub open spec fn drawn_between(a: int, b: int, v: int) -> bool {
    if a == b {
        v == a
    } else if a < b {
        a <= v < b
    } else {
        b <= v < a
    }
}

/// A value between `a` and `b` (see `drawn_between`).
pub fn gen_safe_range(rng: &mut StdRng, a: i64, b: i64) -> (r: i64)
    ensures
        drawn_between(a as int, b as int, r as int),
{
    if a == b {
        a
    } else if a > b {
        draw_below(rng, b, a)
    } else {
        draw_below(rng, a, b)
    }
}

} // verus!
