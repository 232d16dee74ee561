//! Game constants: screen geometry, the trolley's approach poses, and the
//! fixed timings.  Distances are thousandths of a pixel.

use vstd::prelude::*;
use crate::transform::Transform2;

verus! {

/// How long to wait after the trolley has finished its animation before the
/// next scenario starts, in milliseconds.
pub const POST_ANIMATION_WAIT_MS: u64 = 3_000;

/// The remaining countdown time at which the trolley begins turning.
pub const TROLLEY_TURNING_TIME_MS: u64 = 3_000;

/// The remaining countdown time at which the trolley shows side-on.
pub const TROLLEY_SIDE_TIME_MS: u64 = 2_000;

/// The x-coordinate of the point on the horizon where the trolley
/// approaches from.
pub const APPROACHING_TROLLEY_HORIZON_POINT_X_MPX: i64 = 43_000;

/// The y-coordinate of the point on the horizon where the trolley
/// approaches from.
pub const APPROACHING_TROLLEY_HORIZON_POINT_Y_MPX: i64 = 61_000;

/// The standard x-position of hostages on track A.
pub const STANDARD_HOSTAGES_POS_TRACK_A_X_MPX: i64 = 530_000;

/// The standard y-position of hostages on track A.
pub const STANDARD_HOSTAGES_POS_TRACK_A_Y_MPX: i64 = 325_000;

/// The standard x-position of hostages on track B.
pub const STANDARD_HOSTAGES_POS_TRACK_B_X_MPX: i64 = 550_000;

/// The standard y-position of hostages on track B.
pub const STANDARD_HOSTAGES_POS_TRACK_B_Y_MPX: i64 = 230_000;

/// The left edge of the lever hit-rectangle.
pub const LEVER_RECT_MIN_X_MPX: i64 = 346_000;

/// The top edge of the lever hit-rectangle.
pub const LEVER_RECT_MIN_Y_MPX: i64 = 135_000;

/// The right edge of the lever hit-rectangle.
pub const LEVER_RECT_MAX_X_MPX: i64 = 410_000;

/// The bottom edge of the lever hit-rectangle.
pub const LEVER_RECT_MAX_Y_MPX: i64 = 202_000;

/// The final state of the approaching trolley horizon transform.
pub open spec fn spec_approaching_trolley_horizon_end_transform() -> Transform2 {
    Transform2 { x: 50_000, y: 135_000, rot_mdeg: 0, scale_milli: 800 }
}

/// The final state of the approaching trolley horizon transform.
pub fn approaching_trolley_horizon_end_transform() -> (r: Transform2)
    ensures
        r == spec_approaching_trolley_horizon_end_transform(),
{
    Transform2 { x: 50_000, y: 135_000, rot_mdeg: 0, scale_milli: 800 }
}

/// The final state of the approaching trolley turn transform.
pub open spec fn spec_approaching_trolley_turning_end_transform() -> Transform2 {
    Transform2 { x: 112_000, y: 171_000, rot_mdeg: 0, scale_milli: 850 }
}

/// The final state of the approaching trolley turn transform.
pub fn approaching_trolley_turning_end_transform() -> (r: Transform2)
    ensures
        r == spec_approaching_trolley_turning_end_transform(),
{
    Transform2 { x: 112_000, y: 171_000, rot_mdeg: 0, scale_milli: 850 }
}

/// The final state of the approaching trolley side transform.
pub open spec fn spec_approaching_trolley_side_end_transform() -> Transform2 {
    Transform2 { x: 298_000, y: 229_000, rot_mdeg: 0, scale_milli: 1_000 }
}

/// The final state of the approaching trolley side transform.
pub fn approaching_trolley_side_end_transform() -> (r: Transform2)
    ensures
        r == spec_approaching_trolley_side_end_transform(),
{
    Transform2 { x: 298_000, y: 229_000, rot_mdeg: 0, scale_milli: 1_000 }
}

/// The pose of the next person's switch in the doubled scenario.
pub open spec fn spec_next_person_switch_transform() -> Transform2 {
    Transform2 { x: 650_000, y: 380_000, rot_mdeg: 0, scale_milli: 1_000 }
}

/// The pose of the next person's switch in the doubled scenario.
pub fn next_person_switch_transform() -> (r: Transform2)
    ensures
        r == spec_next_person_switch_transform(),
{
    Transform2 { x: 650_000, y: 380_000, rot_mdeg: 0, scale_milli: 1_000 }
}

} // verus!
