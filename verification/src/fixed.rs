//! Exact fixed-point arithmetic for the game's geometry.
//!
//! Screen coordinates are thousandths of a pixel, angles are thousandths of a
//! degree, and scale factors are thousandths, so all interpolation is integer
//! arithmetic.  Progress through a timed segment is the exact rational
//! `elapsed / duration` rather than a floating-point fraction.

use vstd::prelude::*;
use vstd::arithmetic::div_mod::{
    lemma_div_is_ordered, lemma_div_multiples_vanish, lemma_div_pos_is_pos,
    lemma_mod_add_multiples_vanish, lemma_small_mod, lemma_mod_self_0,
};

verus! {

/// Scale of the trigonometric fixed-point values: this value stands for 1.0.
pub const TRIG_SCALE: i64 = 1_000_000;

/// One full turn in thousandths of a degree.
pub const FULL_TURN_MDEG: i64 = 360_000;

/// The largest coordinate magnitude the geometry admits, in thousandths of a
/// pixel.  Keeping coordinates within this bound keeps every intermediate
/// product inside `i64`.
pub const MAX_COORD: i64 = 1_000_000_000;

/// The longest duration the timers admit, in milliseconds.
pub const MAX_TIME_MS: u64 = 1_000_000_000;

/// The value `amount` of the way from `a` to `b`, where `amount` is the exact
/// rational `num / den`.  Integer division rounds the fraction toward `a`.
pub open spec fn spec_point_between(a: int, b: int, num: int, den: int) -> int {
    if b >= a {
        a + (b - a) * num / den
    } else {
        a - (a - b) * num / den
    }
}

/// Returns the value between `a` and `b`, such that the value is `num / den`
/// of the way between `a` and `b`.  Exact at both endpoints: `num == 0` gives
/// `a` and `num == den` gives `b`.
pub fn point_between(a: i64, b: i64, num: u64, den: u64) -> (r: i64)
    requires
        -MAX_COORD <= a <= MAX_COORD,
        -MAX_COORD <= b <= MAX_COORD,
        num <= den,
        0 < den <= MAX_TIME_MS,
    ensures
        r == spec_point_between(a as int, b as int, num as int, den as int),
        num == 0 ==> r == a,
        num == den ==> r == b,
        a <= b ==> a <= r <= b,
        b <= a ==> b <= r <= a,
{
    let n = num as i64;
    let d = den as i64;
    if b >= a {
        let diff = b - a;
        proof {
            assert(0 <= diff as int * n as int <= diff as int * d as int) by (nonlinear_arith)
                requires 0 <= diff as int, 0 <= n as int <= d as int,
            ;
            assert(diff as int * n as int <= 2_000_000_000_000_000_000) by (nonlinear_arith)
                requires 0 <= diff as int <= 2_000_000_000, 0 <= n as int <= 1_000_000_000,
            ;
            if n == 0 {
                assert(diff as int * 0 == 0);
                vstd::arithmetic::div_mod::lemma_div_of0(d as int);
            }
            lemma_div_pos_is_pos(diff as int * n as int, d as int);
            lemma_div_is_ordered(diff as int * n as int, diff as int * d as int, d as int);
            lemma_div_multiples_vanish(diff as int, d as int);
            assert(diff as int * d as int == d as int * diff as int);
        }
        let q = diff * n / d;
        a + q
    } else {
        let diff = a - b;
        proof {
            assert(0 <= diff as int * n as int <= diff as int * d as int) by (nonlinear_arith)
                requires 0 <= diff as int, 0 <= n as int <= d as int,
            ;
            assert(diff as int * n as int <= 2_000_000_000_000_000_000) by (nonlinear_arith)
                requires 0 <= diff as int <= 2_000_000_000, 0 <= n as int <= 1_000_000_000,
            ;
            if n == 0 {
                assert(diff as int * 0 == 0);
                vstd::arithmetic::div_mod::lemma_div_of0(d as int);
            }
            lemma_div_pos_is_pos(diff as int * n as int, d as int);
            lemma_div_is_ordered(diff as int * n as int, diff as int * d as int, d as int);
            lemma_div_multiples_vanish(diff as int, d as int);
            assert(diff as int * d as int == d as int * diff as int);
        }
        let q = diff * n / d;
        a - q
    }
}

/// The Bhaskara rational approximation of the sine on a half turn, with the
/// angle in thousandths of a degree and the result scaled by `TRIG_SCALE`.
/// It is exact at every multiple of a quarter turn.
pub open spec fn spec_sine_half_turn(x: int) -> int {
    let p = x * (180_000 - x);
    4 * p * 1_000_000 / (40_500_000_000 - p)
}

/// The sine of an angle in thousandths of a degree, scaled by `TRIG_SCALE`.
/// The angle is first brought into `[0, 360_000)`; the second half turn is
/// the negated reflection of the first.
pub open spec fn spec_sine_mdeg(angle: int) -> int {
    let n = angle % 360_000;
    if n < 180_000 {
        spec_sine_half_turn(n)
    } else {
        -spec_sine_half_turn(n - 180_000)
    }
}

/// The cosine of an angle in thousandths of a degree, scaled by `TRIG_SCALE`:
/// the sine a quarter turn further on.
pub open spec fn spec_cosine_mdeg(angle: int) -> int {
    spec_sine_mdeg(angle + 90_000)
}

/// The Bhaskara approximation stays within `[0, TRIG_SCALE]` on a half turn.
proof fn lemma_sine_half_turn_bounds(x: int)
    requires
        0 <= x <= 180_000,
    ensures
        0 <= spec_sine_half_turn(x) <= TRIG_SCALE,
{
    assert(0 <= x * (180_000 - x) <= 8_100_000_000) by (nonlinear_arith)
        requires 0 <= x <= 180_000,
    ;
    let p = x * (180_000 - x);
    let d = 40_500_000_000 - p;
    assert(4 * p * 1_000_000 <= 1_000_000 * d) by (nonlinear_arith)
        requires 0 <= p <= 8_100_000_000, d == 40_500_000_000 - p,
    ;
    lemma_div_pos_is_pos(4 * p * 1_000_000, d);
    lemma_div_is_ordered(4 * p * 1_000_000, 1_000_000 * d, d);
    lemma_div_multiples_vanish(1_000_000, d);
}

/// The sine is bounded by `TRIG_SCALE` in magnitude for every angle.
pub proof fn lemma_sine_bounds(angle: int)
    ensures
        -TRIG_SCALE <= spec_sine_mdeg(angle) <= TRIG_SCALE,
{
    let n = angle % 360_000;
    vstd::arithmetic::div_mod::lemma_mod_bound(angle, 360_000);
    if n < 180_000 {
        lemma_sine_half_turn_bounds(n);
    } else {
        lemma_sine_half_turn_bounds(n - 180_000);
    }
}

/// The exact values of the sine at the four quarter-turn points.
pub proof fn lemma_sine_quarter_points()
    ensures
        spec_sine_mdeg(0) == 0,
        spec_sine_mdeg(90_000) == TRIG_SCALE,
        spec_sine_mdeg(180_000) == 0,
        spec_sine_mdeg(270_000) == -TRIG_SCALE,
        spec_sine_mdeg(360_000) == 0,
{
    lemma_small_mod(0nat, 360_000nat);
    lemma_small_mod(90_000nat, 360_000nat);
    lemma_small_mod(180_000nat, 360_000nat);
    lemma_small_mod(270_000nat, 360_000nat);
    lemma_mod_self_0(360_000);
    assert(spec_sine_half_turn(0) == 0) by {
        lemma_div_pos_is_pos(0, 40_500_000_000);
        lemma_div_is_ordered(0, 0, 40_500_000_000);
        assert(0int * (180_000 - 0) == 0);
        assert(4 * 0int * 1_000_000 == 0);
        assert(0int / 40_500_000_000 == 0) by {
            vstd::arithmetic::div_mod::lemma_div_of0(40_500_000_000);
        }
    }
    assert(spec_sine_half_turn(90_000) == TRIG_SCALE) by {
        assert(90_000int * (180_000 - 90_000) == 8_100_000_000);
        assert(4 * 8_100_000_000int * 1_000_000 == 32_400_000_000_000_000);
        assert(40_500_000_000int - 8_100_000_000 == 32_400_000_000);
        lemma_div_multiples_vanish(1_000_000, 32_400_000_000);
        assert(32_400_000_000int * 1_000_000 == 32_400_000_000_000_000);
    }
}

/// Brings an angle within one turn of the principal range into `[0, 360_000)`
/// and returns its sine, scaled by `TRIG_SCALE`.
pub fn sine_mdeg(angle: i64) -> (r: i64)
    requires
        -360_000 <= angle <= 360_000,
    ensures
        r == spec_sine_mdeg(angle as int),
        -TRIG_SCALE <= r <= TRIG_SCALE,
{
    let shifted: i64 = if angle < 0 { angle + 360_000 } else { angle };
    let norm: i64 = if shifted >= 360_000 { shifted - 360_000 } else { shifted };
    proof {
        if angle < 0 {
            lemma_mod_add_multiples_vanish(angle as int, 360_000);
        }
        if shifted >= 360_000 {
            lemma_mod_self_0(360_000);
            lemma_mod_add_multiples_vanish(norm as int, 360_000);
            lemma_small_mod(norm as nat, 360_000nat);
        } else {
            lemma_small_mod(norm as nat, 360_000nat);
        }
        assert(norm == angle as int % 360_000);
    }
    let r = if norm < 180_000 {
        bhaskara_half_turn(norm)
    } else {
        -bhaskara_half_turn(norm - 180_000)
    };
    proof {
        lemma_sine_bounds(angle as int);
    }
    r
}

/// The Bhaskara sine approximation on a half turn, in executable form.
fn bhaskara_half_turn(x: i64) -> (r: i64)
    requires
        0 <= x <= 180_000,
    ensures
        r == spec_sine_half_turn(x as int),
        0 <= r <= TRIG_SCALE,
{
    proof {
        assert(0 <= x as int * (180_000 - x as int) <= 8_100_000_000) by (nonlinear_arith)
            requires 0 <= x as int <= 180_000,
        ;
        lemma_sine_half_turn_bounds(x as int);
    }
    let p = x * (180_000 - x);
    (4 * p * 1_000_000) / (40_500_000_000 - p)
}

/// The cosine of an angle in thousandths of a degree, scaled by `TRIG_SCALE`.
pub fn cosine_mdeg(angle: i64) -> (r: i64)
    requires
        -360_000 <= angle <= 270_000,
    ensures
        r == spec_cosine_mdeg(angle as int),
        -TRIG_SCALE <= r <= TRIG_SCALE,
{
    if angle < -270_000 {
        proof {
            lemma_mod_add_multiples_vanish(angle as int + 90_000, 360_000);
        }
        sine_mdeg(angle + 90_000 + 360_000)
    } else {
        sine_mdeg(angle + 90_000)
    }
}

/// Scales a nonnegative length by a trigonometric factor, rounding the
/// magnitude toward zero.
pub open spec fn spec_scale_by_trig(len: int, t: int) -> int {
    if t >= 0 {
        len * t / 1_000_000
    } else {
        -(len * -t / 1_000_000)
    }
}

/// Multiplies a nonnegative length by a factor scaled by `TRIG_SCALE`.
pub fn scale_by_trig(len: i64, t: i64) -> (r: i64)
    requires
        0 <= len <= MAX_COORD,
        -TRIG_SCALE <= t <= TRIG_SCALE,
    ensures
        r == spec_scale_by_trig(len as int, t as int),
        -len <= r <= len,
        t == TRIG_SCALE ==> r == len,
        t == -TRIG_SCALE ==> r == -len,
        t == 0 ==> r == 0,
{
    proof {
        let l = len as int;
        assert(l * TRIG_SCALE == TRIG_SCALE * l);
        lemma_div_multiples_vanish(l, 1_000_000);
        if t >= 0 {
            assert(0 <= l * t as int <= l * 1_000_000) by (nonlinear_arith)
                requires 0 <= l, 0 <= t as int <= 1_000_000,
            ;
            lemma_div_pos_is_pos(l * t as int, 1_000_000);
            lemma_div_is_ordered(l * t as int, l * 1_000_000, 1_000_000);
            if t == 0 {
                vstd::arithmetic::div_mod::lemma_div_of0(1_000_000);
                assert(l * 0 == 0);
            }
        } else {
            assert(0 <= l * -(t as int) <= l * 1_000_000) by (nonlinear_arith)
                requires 0 <= l, 0 < -(t as int) <= 1_000_000,
            ;
            lemma_div_pos_is_pos(l * -(t as int), 1_000_000);
            lemma_div_is_ordered(l * -(t as int), l * 1_000_000, 1_000_000);
        }
    }
    if t >= 0 {
        len * t / 1_000_000
    } else {
        -(len * -t / 1_000_000)
    }
}

} // verus!
