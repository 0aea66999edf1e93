//! Crash-point generation: the threshold at which a round ends by itself.
use vstd::prelude::*;

verus! {

/// Units of a multiplier that make 1.0.
pub const MULTIPLIER_SCALE: u64 = 10_000;

/// The house edge factor, 0.99 in multiplier units: a crash point is this
/// factor over `1 - u` for a uniform sample `u` in `[0, 1)`, a 1% deduction
/// against a fair distribution. Whether the intended edge was 1% or 5% is an
/// open product question; the factor implemented is 0.99.
pub const HOUSE_EDGE_FACTOR: u64 = 9_900;

/// What one tick adds to the multiplier: 0.01.
pub const TICK_STEP: u64 = 100;

/// The largest crash point a sample can give (the sample `(den - 1) / den`
/// with the largest `u32` denominator).
pub const MAX_CRASH_POINT: u64 = HOUSE_EDGE_FACTOR * 4_294_967_295;

/// The crash point, in multiplier units, for the sample `u = num / den`:
/// `0.99 / (1 - u)`, rounded down to a unit, and never below 1.0.
pub open spec fn crash_point_of(num: nat, den: nat) -> nat
    recommends
        num < den,
{
    let raw: int = (HOUSE_EDGE_FACTOR * den) as int / (den - num);
    if raw < MULTIPLIER_SCALE {
        MULTIPLIER_SCALE as nat
    } else {
        raw as nat
    }
}

/// Computes the crash point for the sample `num / den`, which lies in `[0, 1)`.
pub fn crash_point(num: u32, den: u32) -> (r: u64)
    requires
        num < den,
    ensures
        r == crash_point_of(num as nat, den as nat),
        MULTIPLIER_SCALE <= r <= MAX_CRASH_POINT,
{
    let scaled: u64 = HOUSE_EDGE_FACTOR * (den as u64);
    let gap: u64 = (den - num) as u64;
    assert(scaled / gap <= scaled) by (nonlinear_arith)
        requires
            gap >= 1,
    ;
    let raw: u64 = scaled / gap;
    if raw < MULTIPLIER_SCALE {
        MULTIPLIER_SCALE
    } else {
        raw
    }
}

/// The denominator of the samples drawn at random: a sample is
/// `num / SAMPLE_DENOMINATOR` with `num` uniform below it.
pub const SAMPLE_DENOMINATOR: u32 = 4_294_967_295;

/// Relies on `rand::Rng::gen_range` over `rand::thread_rng()`: for a
/// non-empty range `0..bound` it returns some value below `bound` (and
/// panics only on an empty range). Which value is left to chance.
#[verifier::external_body]
pub(crate) fn draw_below(bound: u32) -> (r: u32)
    requires
        0 < bound,
    ensures
        r < bound,
{
    rand::Rng::gen_range(&mut rand::thread_rng(), 0..bound)
}

/// Floor division respects the order of fractions: `a / b <= c / d`
/// (rounded down) whenever `a / b <= c / d` exactly.
proof fn lemma_floor_div_ordered(a: nat, b: nat, c: nat, d: nat)
    requires
        b > 0,
        d > 0,
        a * d <= c * b,
    ensures
        a as int / b as int <= c as int / d as int,
{
    let q: int = a as int / b as int;
    let p: int = c as int / d as int;
    assert(q * b <= a) by (nonlinear_arith)
        requires
            q == a as int / b as int,
            b > 0,
    ;
    assert(q * d <= c) by (nonlinear_arith)
        requires
            q * b <= a,
            a * d <= c * b,
            b > 0,
            d > 0,
            q >= 0,
    ;
    assert(c < (p + 1) * d) by (nonlinear_arith)
        requires
            p == c as int / d as int,
            d > 0,
    ;
    assert(q <= p) by (nonlinear_arith)
        requires
            q * d <= c,
            c < (p + 1) * d,
            d > 0,
    ;
}

/// The crash point grows with the sample: for samples `u1 = n1 / d1` and
/// `u2 = n2 / d2` in `[0, 1)` with `u1 <= u2`, the crash point of `u1` is
/// positive and at most that of `u2`.
pub proof fn lemma_crash_point_monotonic(n1: nat, d1: nat, n2: nat, d2: nat)
    requires
        n1 < d1,
        n2 < d2,
        n1 * d2 <= n2 * d1,
    ensures
        0 < crash_point_of(n1, d1),
        crash_point_of(n1, d1) <= crash_point_of(n2, d2),
{
    let g1: nat = (d1 - n1) as nat;
    let g2: nat = (d2 - n2) as nat;
    let h: nat = HOUSE_EDGE_FACTOR as nat;
    assert((h * d1) * g2 <= (h * d2) * g1) by (nonlinear_arith)
        requires
            n1 * d2 <= n2 * d1,
            g1 == d1 - n1,
            g2 == d2 - n2,
            h >= 0,
    ;
    lemma_floor_div_ordered(h * d1, g1, h * d2, g2);
}

} // verus!
