//! Fixed-point analog-to-digital motion conversion.
//!
//! Stick readings arrive in thousandths of full deflection. Each tick, an
//! axis value is put through a cubic acceleration curve — a linear term for
//! fine control near center plus a cubed term for fast traversal at the
//! extremes — giving a motion amount in thousandths of a pixel. The carried
//! remainder from the previous tick is added, the whole pixels are emitted,
//! and the sub-pixel rest is carried forward, so slow deliberate movement is
//! never lost to truncation.

use vstd::arithmetic::div_mod::lemma_fundamental_div_mod;
use vstd::arithmetic::div_mod::lemma_div_is_ordered;
use vstd::arithmetic::div_mod::lemma_div_pos_is_pos;
use vstd::arithmetic::div_mod::lemma_remainder_lower;
use vstd::arithmetic::div_mod::lemma_remainder_upper;
use vstd::prelude::*;

verus! {

/// One unit of axis deflection, one pixel, and one scroll tick all measure
/// 1000 in fixed-point thousandths.
pub const FIXED_ONE: i32 = 1000;

/// Axis magnitudes at or below this (0.1 of full deflection) are stick rest
/// noise: no motion, and the remainders reset.
pub const DEAD_ZONE: i32 = 100;

/// Linear pointer sensitivity (1.0).
pub const BASE_SENS: i32 = 1000;

/// Cubic pointer acceleration (24.0).
pub const ACCEL_SENS: i32 = 24000;

/// Linear scroll sensitivity (0.0): scrolling is purely cubic.
pub const SCROLL_BASE_SENS: i32 = 0;

/// Cubic scroll acceleration (1.02).
pub const SCROLL_ACCEL_SENS: i32 = 1020;

/// A well-formed axis reading: within one unit of deflection either way.
pub open spec fn valid_axis(a: int) -> bool {
    -1000 <= a <= 1000
}

/// The cubic curve on a non-negative magnitude `m` (thousandths of
/// deflection): `m * base` scaled back to thousandths, plus `m^3 * accel`
/// scaled back from the three extra factors of 1000.
pub open spec fn raw_mag(m: int, base: int, accel: int) -> int {
    (m * base) / 1000 + (m * m * m * accel) / 1000000000
}

/// The cubic curve on a signed axis reading: an odd function, the magnitude
/// curve with the sign of the reading.
pub open spec fn axis_raw(a: int, base: int, accel: int) -> int {
    if a >= 0 {
        raw_mag(a, base, accel)
    } else {
        -raw_mag(-a, base, accel)
    }
}

/// Division by 1000 rounding toward zero, as truncation of a fraction does.
pub open spec fn trunc_div_1000(t: int) -> int {
    if t >= 0 {
        t / 1000
    } else {
        -((-t) / 1000)
    }
}

/// What truncation toward zero leaves behind: same sign as `t`, magnitude
/// under 1000.
pub open spec fn trunc_rem_1000(t: int) -> int {
    t - 1000 * trunc_div_1000(t)
}

/// Truncation splits a total exactly: `1000 * whole + rest == t`, with the
/// rest strictly inside one unit.
pub proof fn lemma_trunc_split(t: int)
    ensures
        1000 * trunc_div_1000(t) + trunc_rem_1000(t) == t,
        -1000 < trunc_rem_1000(t) < 1000,
        t >= 0 ==> trunc_div_1000(t) >= 0 && trunc_rem_1000(t) >= 0,
        t <= 0 ==> trunc_div_1000(t) <= 0 && trunc_rem_1000(t) <= 0,
{
    if t >= 0 {
        lemma_fundamental_div_mod(t, 1000);
        lemma_remainder_lower(t, 1000);
        lemma_remainder_upper(t, 1000);
        lemma_div_pos_is_pos(t, 1000);
    } else {
        lemma_fundamental_div_mod(-t, 1000);
        lemma_remainder_lower(-t, 1000);
        lemma_remainder_upper(-t, 1000);
        lemma_div_pos_is_pos(-t, 1000);
    }
}

/// The magnitude curve is bounded: with the sensitivities in use, no tick
/// asks for more than 25 pixels of motion.
pub proof fn lemma_raw_mag_bounds(m: int, base: int, accel: int)
    requires
        0 <= m <= 1000,
        0 <= base <= 1000,
        0 <= accel <= 24000,
    ensures
        0 <= raw_mag(m, base, accel) <= 25000,
{
    assert(0 <= m * base <= 1000000) by (nonlinear_arith)
        requires
            0 <= m <= 1000,
            0 <= base <= 1000,
    ;
    assert(0 <= m * m * m * accel <= 24000000000000) by (nonlinear_arith)
        requires
            0 <= m <= 1000,
            0 <= accel <= 24000,
    ;
    lemma_div_pos_is_pos(m * base, 1000);
    lemma_div_is_ordered(m * base, 1000000, 1000);
    lemma_div_pos_is_pos(m * m * m * accel, 1000000000);
    lemma_div_is_ordered(m * m * m * accel, 24000000000000, 1000000000);
    assert(1000000int / 1000 == 1000);
    assert(24000000000000int / 1000000000 == 24000);
}

/// The signed curve is bounded the same way on both sides.
pub proof fn lemma_axis_raw_bounds(a: int, base: int, accel: int)
    requires
        valid_axis(a),
        0 <= base <= 1000,
        0 <= accel <= 24000,
    ensures
        -25000 <= axis_raw(a, base, accel) <= 25000,
{
    if a >= 0 {
        lemma_raw_mag_bounds(a, base, accel);
    } else {
        lemma_raw_mag_bounds(-a, base, accel);
    }
}

/// Apply the cubic curve to one axis reading.
pub fn compute_axis_raw(a: i32, base: i32, accel: i32) -> (r: i32)
    requires
        valid_axis(a as int),
        0 <= base <= 1000,
        0 <= accel <= 24000,
    ensures
        r == axis_raw(a as int, base as int, accel as int),
        -25000 <= r <= 25000,
{
    proof {
        lemma_axis_raw_bounds(a as int, base as int, accel as int);
    }
    let m: u64 = if a < 0 {
        (-a) as u64
    } else {
        a as u64
    };
    proof {
        assert(0 <= (m as int) * (base as int) <= 1000000) by (nonlinear_arith)
            requires
                0 <= m <= 1000,
                0 <= base <= 1000,
        ;
        assert(0 <= (m as int) * (m as int) * (m as int) * (accel as int) <= 24000000000000)
            by (nonlinear_arith)
            requires
                0 <= m <= 1000,
                0 <= accel <= 24000,
        ;
        assert(0 <= (m as int) * (m as int) <= 1000000) by (nonlinear_arith)
            requires
                0 <= m <= 1000,
        ;
        assert(0 <= (m as int) * (m as int) * (m as int) <= 1000000000) by (nonlinear_arith)
            requires
                0 <= m <= 1000,
        ;
    }
    let lin: u64 = m * (base as u64) / 1000;
    let cub: u64 = m * m * m * (accel as u64) / 1000000000;
    proof {
        lemma_div_pos_is_pos((m as int) * (base as int), 1000);
        lemma_div_is_ordered((m as int) * (base as int), 1000000, 1000);
        lemma_div_pos_is_pos((m as int) * (m as int) * (m as int) * (accel as int), 1000000000);
        lemma_div_is_ordered(
            (m as int) * (m as int) * (m as int) * (accel as int),
            24000000000000,
            1000000000,
        );
    }
    let mag: u64 = lin + cub;
    if a < 0 {
        -(mag as i32)
    } else {
        mag as i32
    }
}

/// One tick of one axis: add the carried remainder to the curve's raw
/// amount, emit the whole pixels, carry the rest.
pub open spec fn spec_axis_step(rem: int, raw: int) -> (int, int) {
    (trunc_div_1000(raw + rem), trunc_rem_1000(raw + rem))
}

/// Advance one axis by one tick. Returns the whole pixels to emit and the
/// new sub-pixel remainder. Nothing is lost: `1000 * emitted + new remainder`
/// is exactly the raw amount plus the old remainder.
pub fn step_axis(raw: i32, rem: i32) -> (r: (i32, i32))
    requires
        -25000 <= raw <= 25000,
        -999 <= rem <= 999,
    ensures
        (r.0 as int, r.1 as int) == spec_axis_step(rem as int, raw as int),
        1000 * r.0 + r.1 == raw + rem,
        -26 <= r.0 <= 26,
        -999 <= r.1 <= 999,
{
    proof {
        lemma_trunc_split(raw + rem);
        lemma_div_is_ordered(raw + rem, 25999, 1000);
        lemma_div_is_ordered(-(raw + rem), 25999, 1000);
        assert(25999int / 1000 == 25);
    }
    let total: i32 = raw + rem;
    if total >= 0 {
        let q: u32 = (total as u32) / 1000;
        let rest: u32 = (total as u32) % 1000;
        proof {
            lemma_fundamental_div_mod(total as int, 1000);
        }
        (q as i32, rest as i32)
    } else {
        let mt: u32 = (-total) as u32;
        let q: u32 = mt / 1000;
        let rest: u32 = mt % 1000;
        proof {
            lemma_fundamental_div_mod(mt as int, 1000);
        }
        (-(q as i32), -(rest as i32))
    }
}

/// The cumulative result of holding one constant raw amount for `n` ticks,
/// starting from remainder `rem`: total whole pixels emitted and the final
/// remainder.
pub open spec fn spec_run_axis(rem: int, raw: int, n: nat) -> (int, int)
    decreases n,
{
    if n == 0 {
        (0, rem)
    } else {
        let prev = spec_run_axis(rem, raw, (n - 1) as nat);
        let step = spec_axis_step(prev.1, raw);
        (prev.0 + step.0, step.1)
    }
}

/// Remainder conservation: over any number of ticks at a constant raw
/// amount, the pixels emitted account for the whole input except a carried
/// remainder strictly inside one pixel — truncation error never accumulates.
pub proof fn lemma_remainder_conservation(rem: int, raw: int, n: nat)
    requires
        -1000 < rem < 1000,
    ensures
        1000 * spec_run_axis(rem, raw, n).0 + spec_run_axis(rem, raw, n).1 == n * raw + rem,
        -1000 < spec_run_axis(rem, raw, n).1 < 1000,
    decreases n,
{
    if n == 0 {
        assert(spec_run_axis(rem, raw, 0).0 == 0);
    } else {
        lemma_remainder_conservation(rem, raw, (n - 1) as nat);
        let prev = spec_run_axis(rem, raw, (n - 1) as nat);
        lemma_trunc_split(raw + prev.1);
        assert(n * raw == (n - 1) * raw + raw) by (nonlinear_arith);
    }
}

} // verus!
