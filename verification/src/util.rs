//! Utility functions: canvas normalization, the linear movement transform,
//! and the horizon-approach transform with its exponential-decay weight.

use vstd::prelude::*;
use crate::fixed::{point_between, spec_point_between, MAX_COORD, MAX_TIME_MS, TRIG_SCALE};
use crate::transform::Transform2;
use vstd::arithmetic::div_mod::{
    lemma_div_is_ordered, lemma_div_multiples_vanish, lemma_div_pos_is_pos, lemma_div_of0,
};

verus! {

/// The width of the screen, in thousandths of a pixel.
pub const SCREEN_WIDTH_MPX: i64 = 800_000;

/// The height of the screen, in thousandths of a pixel.
pub const SCREEN_HEIGHT_MPX: i64 = 600_000;

/// Checks if the timer has just reached a target time: the target lies
/// between the previous and the current remaining time.
pub fn time_remaining_reached(
    previous_remaining_ms: u64,
    current_remaining_ms: u64,
    target_remaining_ms: u64,
) -> (r: bool)
    ensures
        r == (previous_remaining_ms >= target_remaining_ms >= current_remaining_ms),
{
    previous_remaining_ms >= target_remaining_ms && target_remaining_ms >= current_remaining_ms
}

/// Normalizes a screen translation (origin top-left, y growing downward)
/// to the canvas (origin at the centre, y growing upward).
pub open spec fn spec_normalize_x(x: int) -> int {
    x - SCREEN_WIDTH_MPX / 2
}

/// The canvas y-coordinate of a screen y-coordinate.
pub open spec fn spec_normalize_y(y: int) -> int {
    (SCREEN_HEIGHT_MPX - y) - SCREEN_HEIGHT_MPX / 2
}

/// Normalizes a translation on the screen relative to the canvas, keeping
/// the given z-order.
pub fn normalize_translation_to_canvas_with_z(x: i64, y: i64, z: i64) -> (r: (i64, i64, i64))
    requires
        -MAX_COORD <= x <= MAX_COORD,
        -MAX_COORD <= y <= MAX_COORD,
    ensures
        r.0 == spec_normalize_x(x as int),
        r.1 == spec_normalize_y(y as int),
        r.2 == z,
{
    (x - SCREEN_WIDTH_MPX / 2, (SCREEN_HEIGHT_MPX - y) - SCREEN_HEIGHT_MPX / 2, z)
}

/// Normalizes a translation on the screen relative to the canvas, assuming
/// zero for the z coordinate.
pub fn normalize_translation_to_canvas(x: i64, y: i64) -> (r: (i64, i64))
    requires
        -MAX_COORD <= x <= MAX_COORD,
        -MAX_COORD <= y <= MAX_COORD,
    ensures
        r.0 == spec_normalize_x(x as int),
        r.1 == spec_normalize_y(y as int),
{
    let (nx, ny, _nz) = normalize_translation_to_canvas_with_z(x, y, 0);
    (nx, ny)
}

/// The linear movement of an object on the screen: position and scale move
/// linearly with the elapsed fraction of the duration, and the translation
/// is normalized to the canvas.
pub open spec fn spec_movement_transform(
    start: Transform2,
    end: Transform2,
    duration_ms: int,
    remaining_ms: int,
) -> Transform2 {
    let num = duration_ms - remaining_ms;
    Transform2 {
        x: spec_normalize_x(spec_point_between(start.x as int, end.x as int, num, duration_ms))
            as i64,
        y: spec_normalize_y(spec_point_between(start.y as int, end.y as int, num, duration_ms))
            as i64,
        rot_mdeg: 0,
        scale_milli: spec_point_between(
            start.scale_milli as int,
            end.scale_milli as int,
            num,
            duration_ms,
        ) as i64,
    }
}

/// Calculates the linear transform to perform on an object moving on the
/// screen.  At `remaining_ms == 0` the object stands exactly at the end
/// position; at `remaining_ms == duration_ms` exactly at the start.
pub fn movement_transform(
    start_transform: Transform2,
    end_transform: Transform2,
    duration_ms: u64,
    remaining_ms: u64,
) -> (r: Transform2)
    requires
        start_transform.in_range(),
        end_transform.in_range(),
        remaining_ms <= duration_ms,
        0 < duration_ms <= MAX_TIME_MS,
    ensures
        r == spec_movement_transform(
            start_transform,
            end_transform,
            duration_ms as int,
            remaining_ms as int,
        ),
{
    let num = duration_ms - remaining_ms;
    let x = point_between(start_transform.x, end_transform.x, num, duration_ms);
    let y = point_between(start_transform.y, end_transform.y, num, duration_ms);
    let scale = point_between(
        start_transform.scale_milli,
        end_transform.scale_milli,
        num,
        duration_ms,
    );
    let (nx, ny) = normalize_translation_to_canvas(x, y);
    Transform2 { x: nx, y: ny, rot_mdeg: 0, scale_milli: scale }
}

/// The decay weight after a whole number of seconds: starting from
/// `TRIG_SCALE`, each second multiplies by `num / den`, rounding down.
pub open spec fn spec_decay_secs(num: int, den: int, secs: nat) -> int
    decreases secs,
{
    if secs == 0 {
        TRIG_SCALE as int
    } else {
        spec_decay_secs(num, den, (secs - 1) as nat) * num / den
    }
}

/// The decay weight after an arbitrary time in milliseconds: the weight at
/// the surrounding whole seconds, interpolated linearly within the second.
pub open spec fn spec_decay_weight(num: int, den: int, ms: int) -> int {
    let secs = (ms / 1000) as nat;
    let frac = ms % 1000;
    let w0 = spec_decay_secs(num, den, secs);
    let w1 = w0 * num / den;
    w0 - (w0 - w1) * frac / 1000
}

/// The per-second decay step keeps the weight within `[0, previous]`.
pub proof fn lemma_decay_secs_bounds(num: int, den: int, secs: nat)
    requires
        0 < num < den <= 1000,
    ensures
        0 <= spec_decay_secs(num, den, secs) <= TRIG_SCALE,
        secs > 0 ==> spec_decay_secs(num, den, secs) <= spec_decay_secs(
            num,
            den,
            (secs - 1) as nat,
        ),
    decreases secs,
{
    if secs > 0 {
        lemma_decay_secs_bounds(num, den, (secs - 1) as nat);
        let w = spec_decay_secs(num, den, (secs - 1) as nat);
        assert(0 <= w * num <= w * den) by (nonlinear_arith)
            requires 0 <= w, 0 < num < den,
        ;
        lemma_div_pos_is_pos(w * num, den);
        lemma_div_is_ordered(w * num, w * den, den);
        lemma_div_multiples_vanish(w, den);
        assert(w * den == den * w);
    }
}

/// Computes the decay weight `TRIG_SCALE * (num/den) ^ (ms/1000)`,
/// interpolated linearly inside each second.  The weight is `TRIG_SCALE`
/// exactly at `ms == 0` and never grows as `ms` grows.
pub fn decay_weight(num: u64, den: u64, ms: u64) -> (w: u64)
    requires
        0 < num < den <= 1000,
        ms <= MAX_TIME_MS,
    ensures
        w == spec_decay_weight(num as int, den as int, ms as int),
        w <= TRIG_SCALE,
        ms == 0 ==> w == TRIG_SCALE,
{
    let secs = ms / 1000;
    let frac = ms % 1000;
    let mut w: u64 = TRIG_SCALE as u64;
    let mut i: u64 = 0;
    proof {
        lemma_decay_secs_bounds(num as int, den as int, 0nat);
    }
    while i < secs
        invariant
            i <= secs,
            0 < num < den <= 1000,
            w == spec_decay_secs(num as int, den as int, i as nat),
            w <= TRIG_SCALE,
        decreases secs - i,
    {
        proof {
            lemma_decay_secs_bounds(num as int, den as int, (i + 1) as nat);
            assert(w as int * num as int <= 1_000_000_000) by (nonlinear_arith)
                requires w as int <= 1_000_000, num as int <= 1000,
            ;
        }
        w = w * num / den;
        i = i + 1;
    }
    let w0 = w;
    proof {
        assert(w0 as int * num as int <= 1_000_000_000) by (nonlinear_arith)
            requires w0 as int <= 1_000_000, num as int <= 1000,
        ;
    }
    let w1 = w0 * num / den;
    proof {
        lemma_decay_secs_bounds(num as int, den as int, secs as nat);
        let w0i = w0 as int;
        assert(0 <= w0i * num as int <= w0i * den as int) by (nonlinear_arith)
            requires 0 <= w0i, 0 < num as int <= den as int,
        ;
        lemma_div_pos_is_pos(w0i * num as int, den as int);
        lemma_div_is_ordered(w0i * num as int, w0i * den as int, den as int);
        lemma_div_multiples_vanish(w0i, den as int);
        assert(w0i * den as int == den as int * w0i);
        let diff = w0i - w1 as int;
        assert(0 <= diff * frac as int <= diff * 1000) by (nonlinear_arith)
            requires 0 <= diff, 0 <= frac as int <= 1000,
        ;
        lemma_div_pos_is_pos(diff * frac as int, 1000);
        lemma_div_is_ordered(diff * frac as int, diff * 1000, 1000);
        lemma_div_multiples_vanish(diff, 1000);
        assert(diff * 1000 == 1000 * diff);
        if frac == 0 {
            assert(diff * 0 == 0);
            lemma_div_of0(1000);
        }
    }
    w0 - (w0 - w1) * frac / 1000
}

/// The numerator of the per-second translation decay: the horizon approach
/// multiplies the remaining translation gap by 4/5 each second.
pub const HORIZON_TRANSLATE_DECAY_NUM: u64 = 4;

/// The denominator of the per-second translation decay.
pub const HORIZON_TRANSLATE_DECAY_DEN: u64 = 5;

/// The numerator of the per-second scale decay: the horizon approach
/// multiplies the remaining scale gap by 10/11 each second.
pub const HORIZON_SCALE_DECAY_NUM: u64 = 10;

/// The denominator of the per-second scale decay.
pub const HORIZON_SCALE_DECAY_DEN: u64 = 11;

/// The horizon-approach transform: the object sits at the horizon point
/// when far away and converges exponentially on the end transform as the
/// remaining time falls, reaching it exactly at zero.
pub open spec fn spec_horizon_distance_transform(
    horizon_x: int,
    horizon_y: int,
    end: Transform2,
    remaining_ms: int,
) -> Transform2 {
    let wt = spec_decay_weight(4, 5, remaining_ms);
    let ws = spec_decay_weight(10, 11, remaining_ms);
    Transform2 {
        x: spec_normalize_x(spec_point_between(horizon_x, end.x as int, wt, TRIG_SCALE as int))
            as i64,
        y: spec_normalize_y(spec_point_between(horizon_y, end.y as int, wt, TRIG_SCALE as int))
            as i64,
        rot_mdeg: 0,
        scale_milli: spec_point_between(0, end.scale_milli as int, ws, TRIG_SCALE as int) as i64,
    }
}

/// Calculates the transform to perform on an object on the horizon
/// approaching a point on the screen.  At `remaining_ms == 0` the object
/// stands exactly at the end transform, so the hand-off to the following
/// linear segment is seamless.
pub fn horizon_distance_transform(
    horizon_x: i64,
    horizon_y: i64,
    end_transform: Transform2,
    remaining_ms: u64,
) -> (r: Transform2)
    requires
        -MAX_COORD <= horizon_x <= MAX_COORD,
        -MAX_COORD <= horizon_y <= MAX_COORD,
        end_transform.in_range(),
        remaining_ms <= MAX_TIME_MS,
    ensures
        r == spec_horizon_distance_transform(
            horizon_x as int,
            horizon_y as int,
            end_transform,
            remaining_ms as int,
        ),
        remaining_ms == 0 ==> r.x == spec_normalize_x(end_transform.x as int) && r.y
            == spec_normalize_y(end_transform.y as int) && r.scale_milli
            == end_transform.scale_milli,
{
    let wt = decay_weight(HORIZON_TRANSLATE_DECAY_NUM, HORIZON_TRANSLATE_DECAY_DEN, remaining_ms);
    let ws = decay_weight(HORIZON_SCALE_DECAY_NUM, HORIZON_SCALE_DECAY_DEN, remaining_ms);
    let x = point_between(horizon_x, end_transform.x, wt, TRIG_SCALE as u64);
    let y = point_between(horizon_y, end_transform.y, wt, TRIG_SCALE as u64);
    let scale = point_between(0, end_transform.scale_milli, ws, TRIG_SCALE as u64);
    let (nx, ny) = normalize_translation_to_canvas(x, y);
    Transform2 { x: nx, y: ny, rot_mdeg: 0, scale_milli: scale }
}

/// The trolley's approach is seamless: the horizon-approach leg ends, at
/// zero remaining time, exactly on its end transform (normalized to the
/// canvas), which is exactly where the following linear leg begins at its
/// full remaining time — so each hand-off between the three approach legs
/// shows the trolley in one agreed place.
pub proof fn lemma_trolley_approach_continuous(
    horizon_x: int,
    horizon_y: int,
    end: Transform2,
    next: Transform2,
    duration_ms: int,
)
    requires
        0 < duration_ms,
        end.in_range(),
        next.in_range(),
    ensures
        spec_horizon_distance_transform(horizon_x, horizon_y, end, 0).x == spec_normalize_x(
            end.x as int,
        ),
        spec_horizon_distance_transform(horizon_x, horizon_y, end, 0).y == spec_normalize_y(
            end.y as int,
        ),
        spec_horizon_distance_transform(horizon_x, horizon_y, end, 0).scale_milli
            == end.scale_milli,
        spec_movement_transform(end, next, duration_ms, duration_ms).x == spec_normalize_x(
            end.x as int,
        ),
        spec_movement_transform(end, next, duration_ms, duration_ms).y == spec_normalize_y(
            end.y as int,
        ),
        spec_movement_transform(end, next, duration_ms, duration_ms).scale_milli
            == end.scale_milli,
        spec_movement_transform(end, next, duration_ms, 0).x == spec_normalize_x(next.x as int),
        spec_movement_transform(end, next, duration_ms, 0).y == spec_normalize_y(next.y as int),
        spec_movement_transform(end, next, duration_ms, 0).scale_milli == next.scale_milli,
{
    crate::transform::lemma_linear_animation_endpoints(horizon_x, end.x as int, TRIG_SCALE as int);
    crate::transform::lemma_linear_animation_endpoints(horizon_y, end.y as int, TRIG_SCALE as int);
    crate::transform::lemma_linear_animation_endpoints(
        0,
        end.scale_milli as int,
        TRIG_SCALE as int,
    );
    crate::transform::lemma_linear_animation_endpoints(end.x as int, next.x as int, duration_ms);
    crate::transform::lemma_linear_animation_endpoints(end.y as int, next.y as int, duration_ms);
    crate::transform::lemma_linear_animation_endpoints(
        end.scale_milli as int,
        next.scale_milli as int,
        duration_ms,
    );
    assert(spec_decay_weight(4, 5, 0) == TRIG_SCALE) by {
        vstd::arithmetic::div_mod::lemma_small_mod(0nat, 1000nat);
        assert(0int / 1000 == 0) by {
            lemma_div_of0(1000);
        }
        let w0 = spec_decay_secs(4, 5, 0nat);
        assert(w0 == TRIG_SCALE);
        let w1 = w0 * 4 / 5;
        assert((w0 - w1) * 0 == 0);
        lemma_div_of0(1000);
    }
    assert(spec_decay_weight(10, 11, 0) == TRIG_SCALE) by {
        vstd::arithmetic::div_mod::lemma_small_mod(0nat, 1000nat);
        assert(0int / 1000 == 0) by {
            lemma_div_of0(1000);
        }
        let w0 = spec_decay_secs(10, 11, 0nat);
        assert(w0 == TRIG_SCALE);
        let w1 = w0 * 10 / 11;
        assert((w0 - w1) * 0 == 0);
        lemma_div_of0(1000);
    }
}

} // verus!
