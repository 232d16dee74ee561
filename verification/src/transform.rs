//! The moving sprite's pose, and the interpolation functions that animate it.
//!
//! A pose has a 2D position in thousandths of a pixel, a rotation about the
//! screen axis in thousandths of a degree, and a uniform scale in thousandths.
//! An animation node moves the sprite from one pose to another, by default
//! linearly in every component; the loop-the-loop node instead traces a full
//! circle hanging under the starting point.

use vstd::prelude::*;
use crate::fixed::{
    point_between, sine_mdeg, cosine_mdeg, scale_by_trig, spec_point_between, spec_sine_mdeg,
    spec_cosine_mdeg, spec_scale_by_trig, lemma_sine_quarter_points, MAX_COORD, MAX_TIME_MS,
    TRIG_SCALE, FULL_TURN_MDEG,
};
use vstd::arithmetic::div_mod::{
    lemma_div_multiples_vanish, lemma_div_of0, lemma_mod_add_multiples_vanish, lemma_small_mod,
    lemma_mod_self_0,
};

verus! {

/// A sprite pose: position in thousandths of a pixel, rotation in thousandths
/// of a degree, uniform scale in thousandths (1000 is natural size).
#[derive(Clone, Copy, Debug, PartialEq, Eq, Structural)]
pub struct Transform2 {
    /// Horizontal position, in thousandths of a pixel.
    pub x: i64,
    /// Vertical position, in thousandths of a pixel.
    pub y: i64,
    /// Rotation about the screen axis, in thousandths of a degree.
    pub rot_mdeg: i64,
    /// Uniform scale, in thousandths.
    pub scale_milli: i64,
}

/// The radius of the loop-the-loop circle, in thousandths of a pixel.
pub const LOOP_RADIUS_MPX: i64 = 70_000;

/// Natural sprite scale, in thousandths.
pub const SCALE_ONE_MILLI: i64 = 1_000;

impl Transform2 {
    /// Every component is small enough that interpolation arithmetic stays
    /// exact in 64 bits.
    pub open spec fn in_range(self) -> bool {
        &&& -MAX_COORD <= self.x <= MAX_COORD
        &&& -MAX_COORD <= self.y <= MAX_COORD
        &&& -MAX_COORD <= self.rot_mdeg <= MAX_COORD
        &&& -MAX_COORD <= self.scale_milli <= MAX_COORD
    }

    /// A pose at the origin with no rotation and natural scale.
    pub fn identity() -> (r: Transform2)
        ensures
            r == (Transform2 { x: 0, y: 0, rot_mdeg: 0, scale_milli: SCALE_ONE_MILLI }),
    {
        Transform2 { x: 0, y: 0, rot_mdeg: 0, scale_milli: SCALE_ONE_MILLI }
    }

    /// A pose at the given position with no rotation and natural scale.
    pub fn from_xy(x: i64, y: i64) -> (r: Transform2)
        ensures
            r == (Transform2 { x, y, rot_mdeg: 0, scale_milli: SCALE_ONE_MILLI }),
    {
        Transform2 { x, y, rot_mdeg: 0, scale_milli: SCALE_ONE_MILLI }
    }

    /// The same pose moved to the given position.
    pub fn with_position(self, x: i64, y: i64) -> (r: Transform2)
        ensures
            r == (Transform2 { x, y, ..self }),
    {
        Transform2 { x, y, ..self }
    }

    /// The same pose with the given rotation.
    pub fn with_rotation(self, rot_mdeg: i64) -> (r: Transform2)
        ensures
            r == (Transform2 { rot_mdeg, ..self }),
    {
        Transform2 { rot_mdeg, ..self }
    }

    /// The same pose with the given uniform scale.
    pub fn with_scale(self, scale_milli: i64) -> (r: Transform2)
        ensures
            r == (Transform2 { scale_milli, ..self }),
    {
        Transform2 { scale_milli, ..self }
    }
}

/// The default interpolation: every component moves linearly from `start` to
/// `end` as the progress fraction `num / den` goes from 0 to 1.
pub open spec fn spec_linear_animation(
    start: Transform2,
    end: Transform2,
    num: int,
    den: int,
) -> Transform2 {
    Transform2 {
        x: spec_point_between(start.x as int, end.x as int, num, den) as i64,
        y: spec_point_between(start.y as int, end.y as int, num, den) as i64,
        rot_mdeg: spec_point_between(start.rot_mdeg as int, end.rot_mdeg as int, num, den) as i64,
        scale_milli: spec_point_between(
            start.scale_milli as int,
            end.scale_milli as int,
            num,
            den,
        ) as i64,
    }
}

/// A linear animation transformation.  This is the default animation
/// function: position, rotation and scale each move linearly with the
/// progress fraction `num / den`, exactly reaching `start_transform` at
/// progress 0 and `end_transform` at progress 1.
pub fn linear_animation(
    start_transform: Transform2,
    end_transform: Transform2,
    num: u64,
    den: u64,
) -> (r: Transform2)
    requires
        start_transform.in_range(),
        end_transform.in_range(),
        num <= den,
        0 < den <= MAX_TIME_MS,
    ensures
        r == spec_linear_animation(start_transform, end_transform, num as int, den as int),
        r.in_range(),
        num == 0 ==> r == start_transform,
        num == den ==> r == end_transform,
{
    Transform2 {
        x: point_between(start_transform.x, end_transform.x, num, den),
        y: point_between(start_transform.y, end_transform.y, num, den),
        rot_mdeg: point_between(start_transform.rot_mdeg, end_transform.rot_mdeg, num, den),
        scale_milli: point_between(
            start_transform.scale_milli,
            end_transform.scale_milli,
            num,
            den,
        ),
    }
}

/// For every pair of poses, linear interpolation is exact at both endpoints:
/// progress 0 gives the start component and progress 1 gives the end
/// component, in every component.
pub proof fn lemma_linear_animation_endpoints(a: int, b: int, den: int)
    requires
        0 < den,
    ensures
        spec_point_between(a, b, 0, den) == a,
        spec_point_between(a, b, den, den) == b,
{
    lemma_div_of0(den);
    if b >= a {
        assert((b - a) * 0 == 0);
        lemma_div_multiples_vanish(b - a, den);
        assert((b - a) * den == den * (b - a));
    } else {
        assert((a - b) * 0 == 0);
        lemma_div_multiples_vanish(a - b, den);
        assert((a - b) * den == den * (a - b));
    }
}

/// The angle round the loop, in thousandths of a degree, at progress
/// `num / den`: the trolley starts at the top of the circle and sweeps
/// clockwise through one full turn.
pub open spec fn spec_loop_angle(num: int, den: int) -> int {
    90_000 - 360_000 * num / den
}

/// The horizontal offset from the loop start at progress `num / den`.
pub open spec fn spec_loop_offset_x(num: int, den: int) -> int {
    spec_scale_by_trig(LOOP_RADIUS_MPX as int, spec_cosine_mdeg(spec_loop_angle(num, den)))
}

/// The vertical offset from the loop start at progress `num / den`.
pub open spec fn spec_loop_offset_y(num: int, den: int) -> int {
    -LOOP_RADIUS_MPX + spec_scale_by_trig(
        LOOP_RADIUS_MPX as int,
        spec_sine_mdeg(spec_loop_angle(num, den)),
    )
}

/// The sprite rotation at progress `num / den` through the loop: one full
/// turn over the whole loop.
pub open spec fn spec_loop_rotation(num: int, den: int) -> int {
    360_000 * num / den
}

/// The transform function for the loop animation.  The trolley traces a full
/// circle of radius `LOOP_RADIUS_MPX` hanging under its starting point,
/// beginning and ending at the start pose, while the sprite itself rotates
/// through one full turn.  The end transform plays no part.
pub fn loop_animation(
    start_transform: Transform2,
    _end_transform: Transform2,
    num: u64,
    den: u64,
) -> (r: Transform2)
    requires
        start_transform.in_range(),
        -MAX_COORD + 2 * LOOP_RADIUS_MPX <= start_transform.x <= MAX_COORD - 2 * LOOP_RADIUS_MPX,
        -MAX_COORD + 2 * LOOP_RADIUS_MPX <= start_transform.y <= MAX_COORD - 2 * LOOP_RADIUS_MPX,
        num <= den,
        0 < den <= MAX_TIME_MS,
    ensures
        r.x == start_transform.x + spec_loop_offset_x(num as int, den as int),
        r.y == start_transform.y + spec_loop_offset_y(num as int, den as int),
        r.rot_mdeg == spec_loop_rotation(num as int, den as int),
        r.scale_milli == SCALE_ONE_MILLI,
        r.in_range(),
{
    proof {
        assert(360_000 * num as int <= 360_000 * den as int) by (nonlinear_arith)
            requires num as int <= den as int,
        ;
        vstd::arithmetic::div_mod::lemma_div_pos_is_pos(360_000 * num as int, den as int);
        vstd::arithmetic::div_mod::lemma_div_is_ordered(
            360_000 * num as int,
            360_000 * den as int,
            den as int,
        );
        lemma_div_multiples_vanish(360_000, den as int);
        assert(360_000 * den as int == den as int * 360_000);
    }
    let k: u64 = 360_000u64 * num / den;
    let theta: i64 = 90_000 - (k as i64);
    let c = cosine_mdeg(theta);
    let s = sine_mdeg(theta);
    let dx = scale_by_trig(LOOP_RADIUS_MPX, c);
    let dy = scale_by_trig(LOOP_RADIUS_MPX, s);
    Transform2 {
        x: start_transform.x + dx,
        y: start_transform.y - LOOP_RADIUS_MPX + dy,
        rot_mdeg: k as i64,
        scale_milli: SCALE_ONE_MILLI,
    }
}

/// The loop's stated geometry: it begins at the start pose with no extra
/// rotation; a quarter of the way round the trolley sits exactly one loop
/// radius below its starting height; and the rotation after the full loop
/// equals the rotation at the start modulo one full turn.
pub proof fn lemma_loop_animation_laws(num: int, den: int)
    requires
        0 < den,
        0 <= num <= den,
    ensures
        num == 0 ==> spec_loop_offset_x(num, den) == 0 && spec_loop_offset_y(num, den) == 0
            && spec_loop_rotation(num, den) == 0,
        4 * num == den ==> spec_loop_offset_y(num, den) == -LOOP_RADIUS_MPX
            && spec_loop_offset_x(num, den) == LOOP_RADIUS_MPX,
        num == den ==> spec_loop_offset_x(num, den) == 0 && spec_loop_offset_y(num, den) == 0,
        num == den ==> spec_loop_rotation(num, den) % (FULL_TURN_MDEG as int)
            == spec_loop_rotation(0, den) % (FULL_TURN_MDEG as int),
{
    lemma_sine_quarter_points();
    if num == 0 {
        assert(360_000 * 0int == 0);
        lemma_div_of0(den);
        assert(spec_loop_angle(0, den) == 90_000);
        assert(spec_cosine_mdeg(90_000) == spec_sine_mdeg(180_000));
        assert(spec_scale_by_trig(70_000, 0) == 0) by {
            assert(70_000int * 0 == 0);
            lemma_div_of0(1_000_000);
        }
        assert(spec_scale_by_trig(70_000, TRIG_SCALE as int) == 70_000) by {
            lemma_div_multiples_vanish(70_000, 1_000_000);
            assert(70_000int * 1_000_000 == 1_000_000int * 70_000);
        }
    }
    if 4 * num == den {
        assert(360_000 * num == 90_000 * den) by (nonlinear_arith)
            requires 4 * num == den,
        ;
        lemma_div_multiples_vanish(90_000, den);
        assert(90_000 * den == den * 90_000);
        assert(spec_loop_angle(num, den) == 0);
        assert(spec_cosine_mdeg(0) == spec_sine_mdeg(90_000));
        assert(spec_scale_by_trig(70_000, TRIG_SCALE as int) == 70_000) by {
            lemma_div_multiples_vanish(70_000, 1_000_000);
            assert(70_000int * 1_000_000 == 1_000_000int * 70_000);
        }
        assert(spec_scale_by_trig(70_000, 0) == 0) by {
            assert(70_000int * 0 == 0);
            lemma_div_of0(1_000_000);
        }
    }
    if num == den {
        lemma_div_multiples_vanish(360_000, den);
        assert(360_000 * den == den * 360_000);
        assert(spec_loop_rotation(num, den) == 360_000);
        assert(spec_loop_angle(num, den) == -270_000);
        assert(spec_cosine_mdeg(-270_000) == spec_sine_mdeg(-180_000));
        assert(spec_sine_mdeg(-180_000) == 0) by {
            lemma_mod_add_multiples_vanish(-180_000, 360_000);
            lemma_small_mod(180_000nat, 360_000nat);
        }
        assert(spec_sine_mdeg(-270_000) == TRIG_SCALE) by {
            lemma_mod_add_multiples_vanish(-270_000, 360_000);
            lemma_small_mod(90_000nat, 360_000nat);
        }
        assert(spec_scale_by_trig(70_000, TRIG_SCALE as int) == 70_000) by {
            lemma_div_multiples_vanish(70_000, 1_000_000);
            assert(70_000int * 1_000_000 == 1_000_000int * 70_000);
        }
        assert(spec_scale_by_trig(70_000, 0) == 0) by {
            assert(70_000int * 0 == 0);
            lemma_div_of0(1_000_000);
        }
        assert(360_000int % 360_000 == 0) by {
            lemma_mod_self_0(360_000);
        }
        assert(spec_loop_rotation(0, den) == 0) by {
            assert(360_000 * 0int == 0);
            lemma_div_of0(den);
        }
        assert(0int % 360_000 == 0) by {
            lemma_small_mod(0nat, 360_000nat);
        }
    }
}

} // verus!
