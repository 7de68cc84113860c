//! The sun's position in the sky, and the light state that belongs to it.

use vstd::prelude::*;
use vstd::std_specs::convert::FromSpecImpl;

use crate::angle::{any_contains, any_holds, is_morning, AngleRange};
use crate::angle::{FULL_TURN, HALF_TURN, QUARTER_TURN};
use crate::light::{light_at, Light};
use crate::light::{ASTRONOMICAL_DEPTH, CIVIL_DEPTH, NAUTICAL_DEPTH, SUN_RADIUS};

verus! {

/// The light states without the time of day: a twilight is the same at
/// dawn and at dusk.
#[derive(Clone, Copy, Debug, PartialEq, Eq, Structural)]
pub enum LightGeneric {
    Day,
    Night,
    AstronomicalTwilight,
    NauticalTwilight,
    CivilTwilight,
}

/// The state that owns a signed altitude: day from the moment the upper
/// limb of the sun is on the horizon, then the three twilights, six degrees
/// each, then night.
pub open spec fn generic_at(elevation: int) -> LightGeneric {
    if elevation < -ASTRONOMICAL_DEPTH {
        LightGeneric::Night
    } else if elevation < -NAUTICAL_DEPTH {
        LightGeneric::AstronomicalTwilight
    } else if elevation < -CIVIL_DEPTH {
        LightGeneric::NauticalTwilight
    } else if elevation < -SUN_RADIUS {
        LightGeneric::CivilTwilight
    } else {
        LightGeneric::Day
    }
}

impl LightGeneric {
    /// The ranges of signed altitude that belong to this state. Together
    /// they span one turn below the horizon and one above.
    pub open spec fn bounds(self) -> Seq<AngleRange> {
        match self {
            LightGeneric::Day => seq![
                AngleRange { start: (-SUN_RADIUS) as i64, end: 0 },
                AngleRange { start: 0, end: FULL_TURN },
            ],
            LightGeneric::AstronomicalTwilight => seq![
                AngleRange {
                    start: (-ASTRONOMICAL_DEPTH) as i64,
                    end: (-NAUTICAL_DEPTH) as i64,
                },
            ],
            LightGeneric::NauticalTwilight => seq![
                AngleRange { start: (-NAUTICAL_DEPTH) as i64, end: (-CIVIL_DEPTH) as i64 },
            ],
            LightGeneric::CivilTwilight => seq![
                AngleRange { start: (-CIVIL_DEPTH) as i64, end: (-SUN_RADIUS) as i64 },
            ],
            LightGeneric::Night => seq![
                AngleRange { start: (-FULL_TURN) as i64, end: (-ASTRONOMICAL_DEPTH) as i64 },
            ],
        }
    }

    /// Whether a signed altitude belongs to this state.
    pub open spec fn covers(self, elevation: int) -> bool {
        any_holds(self.bounds(), elevation)
    }

    /// The state at dawn or at dusk.
    pub open spec fn specific(self, morning: bool) -> Light {
        match self {
            LightGeneric::Day => Light::Day,
            LightGeneric::Night => Light::Night,
            LightGeneric::AstronomicalTwilight => if morning {
                Light::AstronomicalDawn
            } else {
                Light::AstronomicalDusk
            },
            LightGeneric::NauticalTwilight => if morning {
                Light::NauticalDawn
            } else {
                Light::NauticalDusk
            },
            LightGeneric::CivilTwilight => if morning {
                Light::CivilDawn
            } else {
                Light::CivilDusk
            },
        }
    }

    /// The ranges of signed altitude that belong to this state.
    pub fn altitude_bounds(self) -> (ranges: Vec<AngleRange>)
        ensures
            ranges@ == self.bounds(),
    {
        let mut ranges: Vec<AngleRange> = Vec::new();
        match self {
            LightGeneric::Day => {
                ranges.push(AngleRange::new(-SUN_RADIUS, 0));
                ranges.push(AngleRange::new(0, FULL_TURN));
            },
            LightGeneric::AstronomicalTwilight => {
                ranges.push(AngleRange::new(-ASTRONOMICAL_DEPTH, -NAUTICAL_DEPTH));
            },
            LightGeneric::NauticalTwilight => {
                ranges.push(AngleRange::new(-NAUTICAL_DEPTH, -CIVIL_DEPTH));
            },
            LightGeneric::CivilTwilight => {
                ranges.push(AngleRange::new(-CIVIL_DEPTH, -SUN_RADIUS));
            },
            LightGeneric::Night => {
                ranges.push(AngleRange::new(-FULL_TURN, -ASTRONOMICAL_DEPTH));
            },
        }
        assert(ranges@ =~= self.bounds());
        ranges
    }

    /// Tests a signed altitude against this state's ranges.
    pub fn contains(self, elevation: i64) -> (found: bool)
        ensures
            found == self.covers(elevation as int),
    {
        let ranges = self.altitude_bounds();
        any_contains(&ranges, elevation)
    }

    /// Tells dawn from dusk by the azimuth: before half a turn the sun is
    /// rising.
    pub fn to_specific(self, azimuth: i64) -> (light: Light)
        ensures
            light == self.specific(is_morning(azimuth as int)),
    {
        match self {
            LightGeneric::Day => Light::Day,
            LightGeneric::Night => Light::Night,
            LightGeneric::AstronomicalTwilight => if azimuth < HALF_TURN {
                Light::AstronomicalDawn
            } else {
                Light::AstronomicalDusk
            },
            LightGeneric::NauticalTwilight => if azimuth < HALF_TURN {
                Light::NauticalDawn
            } else {
                Light::NauticalDusk
            },
            LightGeneric::CivilTwilight => if azimuth < HALF_TURN {
                Light::CivilDawn
            } else {
                Light::CivilDusk
            },
        }
    }

    /// The state that owns a signed altitude, if the altitude is within a
    /// turn of the horizon; beyond that no state's ranges reach.
    pub fn at(elevation: i64) -> (found: Option<LightGeneric>)
        ensures
            found is Some <==> -FULL_TURN <= elevation < FULL_TURN,
            found matches Some(state) ==> state == generic_at(elevation as int) && state.covers(
                elevation as int,
            ),
    {
        if elevation < -FULL_TURN || elevation >= FULL_TURN {
            return None;
        }
        proof {
            lemma_generic_bounds_partition(generic_at(elevation as int), elevation as int);
        }
        let state = if elevation < -ASTRONOMICAL_DEPTH {
            LightGeneric::Night
        } else if elevation < -NAUTICAL_DEPTH {
            LightGeneric::AstronomicalTwilight
        } else if elevation < -CIVIL_DEPTH {
            LightGeneric::NauticalTwilight
        } else if elevation < -SUN_RADIUS {
            LightGeneric::CivilTwilight
        } else {
            LightGeneric::Day
        };
        Some(state)
    }
}

/// Within a turn of the horizon every signed altitude belongs to exactly
/// one state, the one that `generic_at` names.
pub proof fn lemma_generic_bounds_partition(state: LightGeneric, elevation: int)
    requires
        -FULL_TURN <= elevation < FULL_TURN,
    ensures
        state.covers(elevation) <==> state == generic_at(elevation),
{
    let ranges = state.bounds();
    if state == generic_at(elevation) {
        if state == LightGeneric::Day && elevation >= 0 {
            assert(ranges[1].holds(elevation));
        } else {
            assert(ranges[0].holds(elevation));
        }
    }
}

/// Where the sun stands: its azimuth, counted clockwise from north, and the
/// angle between the zenith and the centre of its disc, which is between
/// nothing and half a turn.
#[derive(Clone, Copy, Debug)]
pub struct SolarPosition {
    azimuth: i64,
    zenith_angle: i64,
}

impl SolarPosition {
    #[verifier::type_invariant]
    spec fn zenith_in_range(self) -> bool {
        0 <= self.zenith_angle <= HALF_TURN
    }

    /// The azimuth that the position was made with.
    pub closed spec fn spec_azimuth(self) -> int {
        self.azimuth as int
    }

    /// The zenith angle that the position was made with.
    pub closed spec fn spec_zenith_angle(self) -> int {
        self.zenith_angle as int
    }

    /// The altitude above the horizon: a right angle less the zenith angle.
    pub open spec fn spec_elevation(self) -> int {
        QUARTER_TURN - self.spec_zenith_angle()
    }

    /// Whether the sun is rising.
    pub open spec fn spec_morning(self) -> bool {
        is_morning(self.spec_azimuth())
    }

    /// A position, if the zenith angle is one: between nothing and half a
    /// turn, both included.
    pub fn new(azimuth: i64, zenith_angle: i64) -> (made: Option<SolarPosition>)
        ensures
            made is Some <==> 0 <= zenith_angle <= HALF_TURN,
            made matches Some(position) ==> position.spec_azimuth() == azimuth
                && position.spec_zenith_angle() == zenith_angle,
    {
        if 0 <= zenith_angle && zenith_angle <= HALF_TURN {
            Some(SolarPosition { azimuth, zenith_angle })
        } else {
            None
        }
    }

    /// The azimuth, counted clockwise from north.
    pub fn azimuth(&self) -> (azimuth: i64)
        ensures
            azimuth == self.spec_azimuth(),
    {
        self.azimuth
    }

    /// The angle between the zenith and the sun.
    pub fn zenith_angle(&self) -> (angle: i64)
        ensures
            angle == self.spec_zenith_angle(),
            0 <= angle <= HALF_TURN,
    {
        proof {
            use_type_invariant(self);
        }
        self.zenith_angle
    }

    /// The altitude above the horizon.
    pub fn elevation(&self) -> (elevation: i64)
        ensures
            elevation == self.spec_elevation(),
            -QUARTER_TURN <= elevation <= QUARTER_TURN,
    {
        proof {
            use_type_invariant(self);
        }
        QUARTER_TURN - self.zenith_angle
    }
}

/// The light of a position: the state that owns the altitude, at dawn
/// while the sun is rising and at dusk after.
pub open spec fn light_of_position(position: SolarPosition) -> Light {
    generic_at(position.spec_elevation()).specific(position.spec_morning())
}

impl FromSpecImpl<SolarPosition> for Light {
    open spec fn obeys_from_spec() -> bool {
        true
    }

    open spec fn from_spec(position: SolarPosition) -> Light {
        light_of_position(position)
    }
}

impl From<SolarPosition> for Light {
    /// The light of a position: the state that owns the altitude, with the
    /// azimuth telling dawn from dusk.
    fn from(position: SolarPosition) -> (light: Light) {
        let elevation = position.elevation();
        match LightGeneric::at(elevation) {
            Some(state) => state.to_specific(position.azimuth()),
            // The altitude of a position is within a quarter turn of the
            // horizon, where a state is always found.
            None => Light::Day,
        }
    }
}

/// In the morning the light of a position is the light of its altitude on
/// the circle.
pub proof fn lemma_morning_light_is_light_at(position: SolarPosition)
    requires
        0 <= position.spec_zenith_angle() <= HALF_TURN,
        position.spec_morning(),
    ensures
        light_of_position(position) == light_at(position.spec_elevation()),
{
}

/// In the evening the light of a position is the light of its altitude
/// mirrored at the zenith, the way the sun goes on round the circle,
/// except where the altitude is exactly the limit between two states: a
/// limit belongs to the brighter state here and to the later one on the
/// circle.
pub proof fn lemma_evening_light_is_mirrored(position: SolarPosition)
    requires
        0 <= position.spec_zenith_angle() <= HALF_TURN,
        !position.spec_morning(),
        position.spec_elevation() != -SUN_RADIUS,
        position.spec_elevation() != -CIVIL_DEPTH,
        position.spec_elevation() != -NAUTICAL_DEPTH,
        position.spec_elevation() != -ASTRONOMICAL_DEPTH,
    ensures
        light_of_position(position) == light_at(HALF_TURN - position.spec_elevation()),
{
}

} // verus!
