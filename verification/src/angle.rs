//! Angles as whole numbers of microdegrees.
//!
//! Every angle in this crate is an `i64` that counts millionths of a degree,
//! so that the quarter degree of the sun's apparent radius is a whole number
//! and all comparisons are exact.

use vstd::prelude::*;

verus! {

/// One degree.
pub const DEGREE: i64 = 1_000_000;

/// Half a turn: the azimuth at which morning ends and evening begins, and
/// the seam of the signed domain `(-180, 180]`.
pub const HALF_TURN: i64 = 180_000_000;

/// A full turn of 360 degrees.
pub const FULL_TURN: i64 = 360_000_000;

/// The right angle between horizon and zenith.
pub const QUARTER_TURN: i64 = 90_000_000;

/// The place of `angle` on the circle: the one value in `[0, FULL_TURN)` that
/// differs from `angle` by a whole number of turns.
pub open spec fn normalized(angle: int) -> int {
    angle % (FULL_TURN as int)
}

/// `angle` reduced towards zero by whole turns, keeping its sign: the one
/// value strictly between `-FULL_TURN` and `FULL_TURN` that differs from
/// `angle` by a whole number of turns and is not of the opposite sign.
pub open spec fn reduced(angle: int) -> int {
    if angle >= 0 {
        angle % (FULL_TURN as int)
    } else {
        -((-angle) % (FULL_TURN as int))
    }
}

/// Brings an angle onto the circle `[0, FULL_TURN)`.
pub fn normalize(angle: i64) -> (norm: i64)
    ensures
        norm == normalized(angle as int),
        0 <= norm < FULL_TURN,
{
    let rem: i64 = angle % FULL_TURN;
    if rem < 0 {
        rem + FULL_TURN
    } else {
        rem
    }
}

/// Takes whole turns off an angle, towards zero.
pub fn reduce(angle: i64) -> (rem: i64)
    ensures
        rem == reduced(angle as int),
        -FULL_TURN < rem < FULL_TURN,
        angle >= 0 ==> rem >= 0,
        angle <= 0 ==> rem <= 0,
{
    angle % FULL_TURN
}

/// Whether an azimuth lies in the morning half of the day, when the sun
/// is rising.
pub open spec fn is_morning(azimuth: int) -> bool {
    azimuth < HALF_TURN
}

/// A half-open range of angles, `start` included and `end` excluded.
/// A range whose `end` is not above its `start` holds no angle.
#[derive(Clone, Copy, Debug, PartialEq, Eq, Structural)]
pub struct AngleRange {
    pub start: i64,
    pub end: i64,
}

impl AngleRange {
    /// Whether `angle` lies in the range.
    pub open spec fn holds(self, angle: int) -> bool {
        self.start <= angle < self.end
    }

    /// The range from `start` up to `end`.
    pub fn new(start: i64, end: i64) -> (range: AngleRange)
        ensures
            range == (AngleRange { start, end }),
    {
        AngleRange { start, end }
    }

    /// Tests an angle against the range.
    pub fn contains(&self, angle: i64) -> (found: bool)
        ensures
            found == self.holds(angle as int),
    {
        self.start <= angle && angle < self.end
    }
}

/// Whether any range of `ranges` holds `angle`.
pub open spec fn any_holds(ranges: Seq<AngleRange>, angle: int) -> bool {
    exists|i: int| 0 <= i < ranges.len() && (#[trigger] ranges[i]).holds(angle)
}

/// Tests an angle against a list of ranges.
pub fn any_contains(ranges: &Vec<AngleRange>, angle: i64) -> (found: bool)
    ensures
        found == any_holds(ranges@, angle as int),
{
    let mut i: usize = 0;
    while i < ranges.len()
        invariant
            i <= ranges.len(),
            forall|j: int| 0 <= j < i ==> !(#[trigger] ranges@[j]).holds(angle as int),
        decreases ranges.len() - i,
    {
        if ranges[i].contains(angle) {
            return true;
        }
        i += 1;
    }
    false
}

} // verus!
