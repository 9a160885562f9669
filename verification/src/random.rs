//! Range-mapped randomness: linear interpolation of a raw 32-bit entropy word
//! into an arbitrary inclusive range, the percentage-chance test built on it,
//! and the little-endian byte helpers used to build a draw's entropy subject.

use vstd::prelude::*;

verus! {

/// Fixed-point scale factor that keeps precision across the integer divisions.
pub const PRECISION: u64 = 100;

/// Mathematical value of `lerp`: `t` is taken as a fraction of `u32::MAX` and
/// mapped into the inclusive range `[a, b]`.
pub open spec fn lerp_spec(a: int, b: int, t: int) -> int {
    (t * 100 / (u32::MAX as int)) * (b - a) / 100 + a
}

/// For any achievable entropy word, the interpolated value lies in `[a, b]`.
pub proof fn lemma_lerp_bounds(a: int, b: int, t: int)
    requires
        0 <= a <= b,
        0 <= t <= u32::MAX,
    ensures
        a <= lerp_spec(a, b, t) <= b,
{
    let fraction = t * 100 / (u32::MAX as int);
    assert(t * 100 <= (u32::MAX as int) * 100) by (nonlinear_arith)
        requires 0 <= t <= u32::MAX;
    assert(fraction <= 100) by (nonlinear_arith)
        requires fraction == t * 100 / (u32::MAX as int), t * 100 <= (u32::MAX as int) * 100, 0 <= t;
    assert(0 <= fraction) by (nonlinear_arith)
        requires fraction == t * 100 / (u32::MAX as int), 0 <= t;
    assert(0 <= fraction * (b - a) <= 100 * (b - a)) by (nonlinear_arith)
        requires 0 <= fraction <= 100, 0 <= b - a;
    assert(0 <= fraction * (b - a) / 100 <= b - a) by (nonlinear_arith)
        requires 0 <= fraction * (b - a) <= 100 * (b - a);
}

/// Linearly interpolates between `a` and `b` by `t`, where `t` is considered
/// a fraction of its maximum value.
pub fn lerp(a: u32, b: u32, t: u32) -> (r: u32)
    requires
        a <= b,
    ensures
        r == lerp_spec(a as int, b as int, t as int),
        a <= r <= b,
{
    proof {
        lemma_lerp_bounds(a as int, b as int, t as int);
    }
    let input: u64 = (t as u64) * PRECISION;
    let fraction: u64 = input / (u32::MAX as u64);
    let length: u64 = (b as u64) - (a as u64);
    let output: u64 = ((fraction * length) / PRECISION) + (a as u64);
    assert(fraction <= 100) by (nonlinear_arith)
        requires fraction == t as int * 100 / (u32::MAX as int), t <= u32::MAX;
    assert(fraction * length <= 100 * length) by (nonlinear_arith)
        requires fraction <= 100, 0 <= length;
    output as u32
}

/// `chance` holds when the range-mapped draw over `[0, 100]` does not exceed
/// the requested percentage.
pub open spec fn chance_spec(percent: u32, t: u32) -> bool {
    lerp_spec(0, 100, t as int) <= percent
}

/// A one-hundred-percent chance is satisfied by every achievable draw.
pub proof fn lemma_chance_hundred(t: u32)
    ensures
        chance_spec(100, t),
{
    lemma_lerp_bounds(0, 100, t as int);
}

/// A zero-percent chance is satisfied exactly when the draw itself is zero.
pub proof fn lemma_chance_zero(t: u32)
    ensures
        chance_spec(0, t) <==> lerp_spec(0, 100, t as int) == 0,
{
    lemma_lerp_bounds(0, 100, t as int);
}

/// Clamp a mathematical value into the unsigned 32-bit range.
pub open spec fn clamp_u32(x: int) -> int {
    if x < 0 {
        0
    } else if x > u32::MAX {
        u32::MAX as int
    } else {
        x
    }
}

/// Attack power of a base strength under a symmetric variance: the entropy
/// word draws an unsigned offset over `[0, 2 * variance]`, whose recentered
/// signed value spreads the strength by at most `variance` either way,
/// clamped at zero rather than wrapping.
pub open spec fn attack_power_spec(strength: u32, variance: u32, t: u32) -> int {
    clamp_u32(strength + lerp_spec(0, 2 * variance, t as int) - variance)
}

/// With no variance, the attack power is exactly the base strength.
pub proof fn lemma_attack_power_no_variance(strength: u32, t: u32)
    ensures
        attack_power_spec(strength, 0, t) == strength,
{
    lemma_lerp_bounds(0, 0, t as int);
}

/// The attack power always lies within `variance` of the base strength,
/// clamped to the unsigned range.
pub proof fn lemma_attack_power_bounds(strength: u32, variance: u32, t: u32)
    requires
        2 * variance <= u32::MAX,
    ensures
        clamp_u32(strength - variance) <= attack_power_spec(strength, variance, t) <= clamp_u32(
            strength + variance,
        ),
{
    lemma_lerp_bounds(0, 2 * variance, t as int);
}

} // verus!
