//! Direction classification: from the signed angle between the camera's and
//! the subject's horizontal forward headings to a facing direction.
//!
//! Headings and angles are measured in hundredths of a degree (centidegrees),
//! so a full turn is 36000. A heading names the yaw of a forward vector
//! around the world-up axis; the signed angle from camera to subject is their
//! normalized difference, in (-18000, 18000].

use vstd::prelude::*;

use crate::Direction;
use vstd::arithmetic::div_mod::lemma_mod_add_multiples_vanish;
use vstd::arithmetic::div_mod::lemma_small_mod;
use vstd::arithmetic::div_mod::lemma_sub_mod_noop;

verus! {

/// Centidegrees in a full turn.
pub const FULL_TURN: i32 = 36000;

/// Centidegrees in a half turn.
pub const HALF_TURN: i32 = 18000;

/// Below this absolute angle the camera sees the subject's back.
pub const BACK_ANGLE: i32 = 6500;

/// From this absolute angle on the camera sees the subject's face; between
/// `BACK_ANGLE` and this bound it sees a flank.
pub const SIDE_ANGLE: i32 = 15500;

/// `x` reduced to the equivalent signed angle in (-18000, 18000].
pub open spec fn norm_signed_angle(x: int) -> int {
    let m = x % (FULL_TURN as int);
    if m > HALF_TURN as int {
        m - FULL_TURN as int
    } else {
        m
    }
}

/// The signed angle, around the world-up axis, from the camera's forward
/// heading to the subject's forward heading.
pub open spec fn signed_angle_spec(camera_heading: int, subject_heading: int) -> int {
    norm_signed_angle(subject_heading - camera_heading)
}

/// The facing direction for a signed angle: nearly parallel forward vectors
/// show the back, nearly opposed ones the front, and anything in between a
/// flank, picked by the sign of the angle. A boundary angle (exactly
/// `BACK_ANGLE` or `SIDE_ANGLE` in absolute value) belongs to the higher
/// bracket.
pub open spec fn classify_angle_spec(signed_angle: int) -> Direction {
    let a = if signed_angle < 0 {
        -signed_angle
    } else {
        signed_angle
    };
    if a < BACK_ANGLE as int {
        Direction::Back
    } else if a < SIDE_ANGLE as int {
        if signed_angle > 0 {
            Direction::Right
        } else {
            Direction::Left
        }
    } else {
        Direction::Front
    }
}

/// The facing direction for a camera heading and a subject heading.
pub open spec fn classify_spec(camera_heading: int, subject_heading: int) -> Direction {
    classify_angle_spec(signed_angle_spec(camera_heading, subject_heading))
}

/// A heading rotated about the world-up axis, reduced to [0, 36000).
pub open spec fn rotate_heading(heading: int, by: int) -> int {
    (heading + by) % (FULL_TURN as int)
}

/// Computes the signed angle from the camera's to the subject's heading.
pub fn signed_angle(camera_heading: i32, subject_heading: i32) -> (sa: i32)
    requires
        0 <= camera_heading < FULL_TURN,
        0 <= subject_heading < FULL_TURN,
    ensures
        sa == signed_angle_spec(camera_heading as int, subject_heading as int),
        -HALF_TURN < sa <= HALF_TURN,
{
    let d: i32 = subject_heading - camera_heading;
    let m: i32 = if d < 0 {
        d + FULL_TURN
    } else {
        d
    };
    proof {
        if d < 0 {
            lemma_mod_add_multiples_vanish(d as int, FULL_TURN as int);
        }
        lemma_small_mod(m as nat, FULL_TURN as nat);
    }
    if m > HALF_TURN {
        m - FULL_TURN
    } else {
        m
    }
}

/// Classifies a signed angle in (-18000, 18000].
pub fn classify_angle(signed_angle: i32) -> (d: Direction)
    requires
        -HALF_TURN < signed_angle <= HALF_TURN,
    ensures
        d == classify_angle_spec(signed_angle as int),
{
    let a: i32 = if signed_angle < 0 {
        -signed_angle
    } else {
        signed_angle
    };
    if a < BACK_ANGLE {
        Direction::Back
    } else if a < SIDE_ANGLE {
        if signed_angle > 0 {
            Direction::Right
        } else {
            Direction::Left
        }
    } else {
        Direction::Front
    }
}

/// Classifies the facing direction for a camera heading and a subject
/// heading, both in centidegrees in [0, 36000).
pub fn classify(camera_heading: i32, subject_heading: i32) -> (d: Direction)
    requires
        0 <= camera_heading < FULL_TURN,
        0 <= subject_heading < FULL_TURN,
    ensures
        d == classify_spec(camera_heading as int, subject_heading as int),
{
    classify_angle(signed_angle(camera_heading, subject_heading))
}

/// Classification is total: every pair of headings yields one of the four
/// directions.
pub proof fn lemma_classify_total(camera_heading: int, subject_heading: int)
    ensures
        classify_spec(camera_heading, subject_heading) == Direction::Front
            || classify_spec(camera_heading, subject_heading) == Direction::Back
            || classify_spec(camera_heading, subject_heading) == Direction::Left
            || classify_spec(camera_heading, subject_heading) == Direction::Right,
{
}

/// Only the relative angle matters: rotating the camera and the subject
/// about the world-up axis by the same amount leaves the classification
/// unchanged.
pub proof fn lemma_classify_rotation_invariant(
    camera_heading: int,
    subject_heading: int,
    by: int,
)
    ensures
        classify_spec(rotate_heading(camera_heading, by), rotate_heading(subject_heading, by))
            == classify_spec(camera_heading, subject_heading),
{
    let f = FULL_TURN as int;
    let a = subject_heading + by;
    let b = camera_heading + by;
    lemma_sub_mod_noop(a, b, f);
    assert((a % f - b % f) % f == (subject_heading - camera_heading) % f);
}

} // verus!
