//! Angle arithmetic over milliradians: normalization into one turn, the
//! angle-in-arc test, and the two flags of an SVG elliptical-arc command.

use vstd::prelude::*;

verus! {

/// One full turn (2π) in milliradians.
pub const TAU_MRAD: i64 = 6283;

/// Half a turn (π) in milliradians.
pub const PI_MRAD: i64 = 3142;

/// A quarter turn (π/2) in milliradians.
pub const QUARTER_MRAD: i64 = 1571;

/// Three quarters of a turn (3π/2) in milliradians.
pub const THREE_QUARTER_MRAD: i64 = 4712;

/// Truncating remainder (the sign follows the dividend, as with the `%` of
/// the machine) of `a` by one full turn.
pub open spec fn rem_tau(a: int) -> int {
    if a >= 0 {
        a % (TAU_MRAD as int)
    } else {
        -((-a) % (TAU_MRAD as int))
    }
}

/// Truncating division of `a` by a positive `b` (the sign follows the
/// dividend, as with the `/` of the machine).
pub open spec fn div_trunc(a: int, b: int) -> int
    recommends
        b > 0,
{
    if a >= 0 {
        a / b
    } else {
        -((-a) / b)
    }
}

/// Truncating division of `v` by 1000 (the sign follows the dividend).
pub open spec fn div1000(v: int) -> int {
    div_trunc(v, 1000)
}

/// Whether `angle` lies within the angular span from `start` to `end`
/// (all in milliradians): every angle is first reduced into one turn;
/// when the span crosses the zero direction (`start > end` after
/// reduction) the end — and the angle, when it lies below the start — is
/// shifted up by a full turn before the interval test.
pub open spec fn spec_in_arc(angle: int, start: int, end: int) -> bool {
    let a0 = rem_tau(angle);
    let s = rem_tau(start);
    let e0 = rem_tau(end);
    if s > e0 {
        let e1 = e0 + TAU_MRAD;
        let a1 = if a0 < s {
            a0 + TAU_MRAD
        } else {
            a0
        };
        s <= a1 && a1 <= e1
    } else {
        s <= a0 && a0 <= e0
    }
}

/// The sweep flag of an arc command: 1 when the end angle exceeds the
/// start angle, else 0.
pub open spec fn spec_sweep(start: int, end: int) -> int {
    if end > start {
        1
    } else {
        0
    }
}

/// The large-arc flag of an arc command: 1 when the absolute angular
/// difference, reduced into one turn, exceeds half a turn.
pub open spec fn spec_large_arc(start: int, end: int) -> int {
    let d = if end - start >= 0 {
        end - start
    } else {
        -(end - start)
    };
    if rem_tau(d) > PI_MRAD {
        1
    } else {
        0
    }
}

/// Truncating remainder of a milliradian value by one full turn.
pub(crate) fn rem_tau_exec(a: i128) -> (r: i128)
    requires
        a > i128::MIN,
    ensures
        r == rem_tau(a as int),
        -(TAU_MRAD as int) < r < (TAU_MRAD as int),
{
    if a >= 0 {
        a % (TAU_MRAD as i128)
    } else {
        -((-a) % (TAU_MRAD as i128))
    }
}

/// Truncating division by a positive divisor.
pub(crate) fn div_trunc_exec(a: i128, b: i128) -> (r: i128)
    requires
        a > i128::MIN,
        b > 0,
    ensures
        r == div_trunc(a as int, b as int),
{
    if a >= 0 {
        a / b
    } else {
        -((-a) / b)
    }
}

/// Truncating division of a milliunit product by 1000.
pub(crate) fn div1000_exec(v: i128) -> (r: i128)
    requires
        v > i128::MIN,
    ensures
        r == div1000(v as int),
{
    div_trunc_exec(v, 1000)
}

/// A product of values bounded in magnitude is bounded by the product of
/// the magnitudes.
pub proof fn lemma_mul_bound(x: int, xb: int, y: int, yb: int)
    by (nonlinear_arith)
    requires
        -xb <= x <= xb,
        -yb <= y <= yb,
        0 <= xb,
        0 <= yb,
    ensures
        -(xb * yb) <= x * y <= xb * yb,
{
}

/// Truncating division by a positive `b` maps `[-mb, mb]` into `[-m, m]`.
pub proof fn lemma_div_trunc_in_range(a: int, b: int, m: int)
    requires
        0 < b,
        0 <= m,
        -(m * b) <= a <= m * b,
    ensures
        -m <= div_trunc(a, b) <= m,
{
    if a >= 0 {
        vstd::arithmetic::div_mod::lemma_div_is_ordered(a, m * b, b);
        vstd::arithmetic::div_mod::lemma_div_multiples_vanish(m, b);
        vstd::arithmetic::div_mod::lemma_div_pos_is_pos(a, b);
        assert(m * b == b * m) by (nonlinear_arith);
    } else {
        vstd::arithmetic::div_mod::lemma_div_is_ordered(-a, m * b, b);
        vstd::arithmetic::div_mod::lemma_div_multiples_vanish(m, b);
        vstd::arithmetic::div_mod::lemma_div_pos_is_pos(-a, b);
        assert(m * b == b * m) by (nonlinear_arith);
    }
}

/// Truncating division by 1000 maps `[-1000m, 1000m]` into `[-m, m]`.
pub proof fn lemma_div1000_in_range(v: int, m: int)
    requires
        0 <= m,
        -(m * 1000) <= v <= m * 1000,
    ensures
        -m <= div1000(v) <= m,
{
    lemma_div_trunc_in_range(v, 1000, m);
}

/// Whether `angle` lies within the angular span from `start` to `end`,
/// all three in milliradians.
pub fn is_angle_in_arc(angle: i64, start: i64, end: i64) -> (r: bool)
    ensures
        r == spec_in_arc(angle as int, start as int, end as int),
{
    let a0 = rem_tau_exec(angle as i128);
    let s = rem_tau_exec(start as i128);
    let e0 = rem_tau_exec(end as i128);
    if s > e0 {
        let e1 = e0 + (TAU_MRAD as i128);
        let a1 = if a0 < s {
            a0 + (TAU_MRAD as i128)
        } else {
            a0
        };
        s <= a1 && a1 <= e1
    } else {
        s <= a0 && a0 <= e0
    }
}

/// The sweep flag for an arc from `start` to `end` milliradians.
pub fn sweep_flag(start: i64, end: i64) -> (r: u8)
    ensures
        r as int == spec_sweep(start as int, end as int),
{
    if end > start {
        1
    } else {
        0
    }
}

/// The large-arc flag for an arc from `start` to `end` milliradians.
pub fn large_arc_flag(start: i64, end: i64) -> (r: u8)
    ensures
        r as int == spec_large_arc(start as int, end as int),
{
    let d: i128 = (end as i128) - (start as i128);
    let m: i128 = if d >= 0 {
        d
    } else {
        -d
    };
    let rem = rem_tau_exec(m);
    if rem > (PI_MRAD as i128) {
        1
    } else {
        0
    }
}

} // verus!
