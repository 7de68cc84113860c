//! The eight light states of a day and the classification of the sun's
//! altitude into them.

use vstd::prelude::*;

use crate::angle::{any_contains, any_holds, normalize, normalized, AngleRange};
use crate::angle::{FULL_TURN, HALF_TURN};
use crate::text::same_text;

verus! {

/// Where the upper limb of the sun touches the horizon: a quarter of a
/// degree, the sun's apparent radius.
pub const SUN_RADIUS: i64 = 250_000;

/// Depth below the horizon at which civil twilight ends.
pub const CIVIL_DEPTH: i64 = 6_000_000;

/// Depth below the horizon at which nautical twilight ends.
pub const NAUTICAL_DEPTH: i64 = 12_000_000;

/// Depth below the horizon at which astronomical twilight ends and night
/// begins.
pub const ASTRONOMICAL_DEPTH: i64 = 18_000_000;

/// The light states, in the order in which a day passes through them.
#[derive(Clone, Copy, Debug, PartialEq, Eq, Hash, Structural)]
pub enum Light {
    AstronomicalDawn,
    NauticalDawn,
    CivilDawn,
    Day,
    CivilDusk,
    NauticalDusk,
    AstronomicalDusk,
    Night,
}

/// The light state that owns a place on the circle `[0, FULL_TURN)`.
///
/// The circle starts at the morning horizon, passes the zenith at a quarter
/// turn and the evening horizon at half a turn, and runs below the horizon
/// from there back to the morning.
pub open spec fn light_on_circle(norm: int) -> Light {
    if norm < HALF_TURN + SUN_RADIUS {
        Light::Day
    } else if norm < HALF_TURN + CIVIL_DEPTH {
        Light::CivilDusk
    } else if norm < HALF_TURN + NAUTICAL_DEPTH {
        Light::NauticalDusk
    } else if norm < HALF_TURN + ASTRONOMICAL_DEPTH {
        Light::AstronomicalDusk
    } else if norm < FULL_TURN - ASTRONOMICAL_DEPTH {
        Light::Night
    } else if norm < FULL_TURN - NAUTICAL_DEPTH {
        Light::AstronomicalDawn
    } else if norm < FULL_TURN - CIVIL_DEPTH {
        Light::NauticalDawn
    } else if norm < FULL_TURN - SUN_RADIUS {
        Light::CivilDawn
    } else {
        Light::Day
    }
}

/// The light state of an altitude given in any number of turns.
pub open spec fn light_at(elevation: int) -> Light {
    light_on_circle(normalized(elevation))
}

impl Light {
    /// The ranges of the circle `[0, FULL_TURN)` that belong to this state.
    pub open spec fn bounds(self) -> Seq<AngleRange> {
        match self {
            Light::AstronomicalDawn => seq![
                AngleRange {
                    start: (FULL_TURN - ASTRONOMICAL_DEPTH) as i64,
                    end: (FULL_TURN - NAUTICAL_DEPTH) as i64,
                },
            ],
            Light::NauticalDawn => seq![
                AngleRange {
                    start: (FULL_TURN - NAUTICAL_DEPTH) as i64,
                    end: (FULL_TURN - CIVIL_DEPTH) as i64,
                },
            ],
            Light::CivilDawn => seq![
                AngleRange {
                    start: (FULL_TURN - CIVIL_DEPTH) as i64,
                    end: (FULL_TURN - SUN_RADIUS) as i64,
                },
            ],
            Light::Day => seq![
                AngleRange { start: (FULL_TURN - SUN_RADIUS) as i64, end: FULL_TURN },
                AngleRange { start: 0, end: (HALF_TURN + SUN_RADIUS) as i64 },
            ],
            Light::CivilDusk => seq![
                AngleRange {
                    start: (HALF_TURN + SUN_RADIUS) as i64,
                    end: (HALF_TURN + CIVIL_DEPTH) as i64,
                },
            ],
            Light::NauticalDusk => seq![
                AngleRange {
                    start: (HALF_TURN + CIVIL_DEPTH) as i64,
                    end: (HALF_TURN + NAUTICAL_DEPTH) as i64,
                },
            ],
            Light::AstronomicalDusk => seq![
                AngleRange {
                    start: (HALF_TURN + NAUTICAL_DEPTH) as i64,
                    end: (HALF_TURN + ASTRONOMICAL_DEPTH) as i64,
                },
            ],
            Light::Night => seq![
                AngleRange {
                    start: (HALF_TURN + ASTRONOMICAL_DEPTH) as i64,
                    end: (FULL_TURN - ASTRONOMICAL_DEPTH) as i64,
                },
            ],
        }
    }

    /// The name of this state, as it is written in a configuration.
    pub open spec fn name_chars(self) -> Seq<char> {
        match self {
            Light::AstronomicalDawn => "astronomical dawn"@,
            Light::NauticalDawn => "nautical dawn"@,
            Light::CivilDawn => "civil dawn"@,
            Light::Day => "day"@,
            Light::CivilDusk => "civil dusk"@,
            Light::NauticalDusk => "nautical dusk"@,
            Light::AstronomicalDusk => "astronomical dusk"@,
            Light::Night => "night"@,
        }
    }

    /// The name of this state, as it is written in a configuration.
    pub fn name(self) -> (name: &'static str)
        ensures
            name@ == self.name_chars(),
    {
        match self {
            Light::AstronomicalDawn => "astronomical dawn",
            Light::NauticalDawn => "nautical dawn",
            Light::CivilDawn => "civil dawn",
            Light::Day => "day",
            Light::CivilDusk => "civil dusk",
            Light::NauticalDusk => "nautical dusk",
            Light::AstronomicalDusk => "astronomical dusk",
            Light::Night => "night",
        }
    }

    /// The state that a text names: `None` where the text is no state's
    /// name, letter for letter.
    pub fn from_name(text: &str) -> (found: Option<Light>)
        ensures
            found == light_named(text@),
            found matches Some(light) ==> light.name_chars() == text@,
            found is None ==> forall|light: Light| #[trigger] light.name_chars() != text@,
    {
        proof {
            assert forall|light: Light| light_named(text@) is None implies #[trigger]
                light.name_chars() != text@ by {
                lemma_light_named(text@, light);
            }
        }
        if same_text(text, Light::AstronomicalDawn.name()) {
            Some(Light::AstronomicalDawn)
        } else if same_text(text, Light::NauticalDawn.name()) {
            Some(Light::NauticalDawn)
        } else if same_text(text, Light::CivilDawn.name()) {
            Some(Light::CivilDawn)
        } else if same_text(text, Light::Day.name()) {
            Some(Light::Day)
        } else if same_text(text, Light::CivilDusk.name()) {
            Some(Light::CivilDusk)
        } else if same_text(text, Light::NauticalDusk.name()) {
            Some(Light::NauticalDusk)
        } else if same_text(text, Light::AstronomicalDusk.name()) {
            Some(Light::AstronomicalDusk)
        } else if same_text(text, Light::Night.name()) {
            Some(Light::Night)
        } else {
            None
        }
    }

    /// Whether a place on the circle belongs to this state.
    pub open spec fn covers(self, norm: int) -> bool {
        any_holds(self.bounds(), norm)
    }

    /// The ranges of the circle that belong to this state, in degrees past
    /// the morning horizon.
    pub fn altitude_bounds(self) -> (ranges: Vec<AngleRange>)
        ensures
            ranges@ == self.bounds(),
    {
        let mut ranges: Vec<AngleRange> = Vec::new();
        match self {
            Light::AstronomicalDawn => {
                ranges.push(
                    AngleRange::new(FULL_TURN - ASTRONOMICAL_DEPTH, FULL_TURN - NAUTICAL_DEPTH),
                );
            },
            Light::NauticalDawn => {
                ranges.push(AngleRange::new(FULL_TURN - NAUTICAL_DEPTH, FULL_TURN - CIVIL_DEPTH));
            },
            Light::CivilDawn => {
                ranges.push(AngleRange::new(FULL_TURN - CIVIL_DEPTH, FULL_TURN - SUN_RADIUS));
            },
            Light::Day => {
                ranges.push(AngleRange::new(FULL_TURN - SUN_RADIUS, FULL_TURN));
                ranges.push(AngleRange::new(0, HALF_TURN + SUN_RADIUS));
            },
            Light::CivilDusk => {
                ranges.push(AngleRange::new(HALF_TURN + SUN_RADIUS, HALF_TURN + CIVIL_DEPTH));
            },
            Light::NauticalDusk => {
                ranges.push(AngleRange::new(HALF_TURN + CIVIL_DEPTH, HALF_TURN + NAUTICAL_DEPTH));
            },
            Light::AstronomicalDusk => {
                ranges.push(AngleRange::new(HALF_TURN + NAUTICAL_DEPTH, HALF_TURN + ASTRONOMICAL_DEPTH));
            },
            Light::Night => {
                ranges.push(
                    AngleRange::new(HALF_TURN + ASTRONOMICAL_DEPTH, FULL_TURN - ASTRONOMICAL_DEPTH),
                );
            },
        }
        assert(ranges@ =~= self.bounds());
        ranges
    }

    /// Tests a place on the circle against this state's ranges.
    pub fn contains(self, norm: i64) -> (found: bool)
        ensures
            found == self.covers(norm as int),
    {
        let ranges = self.altitude_bounds();
        any_contains(&ranges, norm)
    }
}

/// The light state that a text names, if it names one.
pub open spec fn light_named(text: Seq<char>) -> Option<Light> {
    if text == Light::AstronomicalDawn.name_chars() {
        Some(Light::AstronomicalDawn)
    } else if text == Light::NauticalDawn.name_chars() {
        Some(Light::NauticalDawn)
    } else if text == Light::CivilDawn.name_chars() {
        Some(Light::CivilDawn)
    } else if text == Light::Day.name_chars() {
        Some(Light::Day)
    } else if text == Light::CivilDusk.name_chars() {
        Some(Light::CivilDusk)
    } else if text == Light::NauticalDusk.name_chars() {
        Some(Light::NauticalDusk)
    } else if text == Light::AstronomicalDusk.name_chars() {
        Some(Light::AstronomicalDusk)
    } else if text == Light::Night.name_chars() {
        Some(Light::Night)
    } else {
        None
    }
}

/// No two light states share a name.
pub proof fn lemma_names_distinct(a: Light, b: Light)
    requires
        a.name_chars() == b.name_chars(),
    ensures
        a == b,
{
    reveal_strlit("astronomical dawn");
    reveal_strlit("nautical dawn");
    reveal_strlit("civil dawn");
    reveal_strlit("day");
    reveal_strlit("civil dusk");
    reveal_strlit("nautical dusk");
    reveal_strlit("astronomical dusk");
    reveal_strlit("night");
    assert("astronomical dawn"@.len() == 17 && "astronomical dawn"@[14] == 'a');
    assert("astronomical dusk"@.len() == 17 && "astronomical dusk"@[14] == 'u');
    assert("nautical dawn"@.len() == 13 && "nautical dawn"@[10] == 'a');
    assert("nautical dusk"@.len() == 13 && "nautical dusk"@[10] == 'u');
    assert("civil dawn"@.len() == 10 && "civil dawn"@[7] == 'a');
    assert("civil dusk"@.len() == 10 && "civil dusk"@[7] == 'u');
    assert("day"@.len() == 3);
    assert("night"@.len() == 5);
}

/// A text names a light state exactly when it is that state's name.
pub proof fn lemma_light_named(text: Seq<char>, light: Light)
    ensures
        light_named(text) == Some(light) <==> text == light.name_chars(),
{
    if text == light.name_chars() {
        if let Some(first) = light_named(text) {
            lemma_names_distinct(light, first);
        }
    }
}

/// The ranges of the eight states part the circle: every place on it belongs
/// to exactly one state, the one that `light_on_circle` names.
pub proof fn lemma_bounds_partition(light: Light, norm: int)
    requires
        0 <= norm < FULL_TURN,
    ensures
        light.covers(norm) <==> light == light_on_circle(norm),
{
    let ranges = light.bounds();
    if light == light_on_circle(norm) {
        if light == Light::Day && norm < HALF_TURN + SUN_RADIUS {
            assert(ranges[1].holds(norm));
        } else {
            assert(ranges[0].holds(norm));
        }
    }
}

/// Every altitude, whatever its sign and however many turns it counts,
/// belongs to exactly one state.
pub proof fn lemma_partition_total(elevation: int)
    ensures
        light_at(elevation).covers(normalized(elevation)),
        forall|other: Light| #[trigger]
            other.covers(normalized(elevation)) ==> other == light_at(elevation),
{
    let norm = normalized(elevation);
    lemma_bounds_partition(light_at(elevation), norm);
    assert forall|other: Light| #[trigger] other.covers(norm) implies other == light_at(
        elevation,
    ) by {
        lemma_bounds_partition(other, norm);
    }
}

/// A whole turn more or less changes nothing.
pub proof fn lemma_light_periodic(elevation: int)
    ensures
        light_at(elevation + FULL_TURN) == light_at(elevation),
        light_at(elevation - FULL_TURN) == light_at(elevation),
{
    let turn = FULL_TURN as int;
    assert((elevation + turn) % turn == elevation % turn) by {
        vstd::arithmetic::div_mod::lemma_mod_add_multiples_vanish(elevation, turn);
    }
    assert((elevation - turn) % turn == elevation % turn) by {
        vstd::arithmetic::div_mod::lemma_mod_sub_multiples_vanish(elevation, turn);
    }
}

/// Classifies the sun's altitude.
///
/// The altitude counts from the morning horizon and may hold any number of
/// turns; an altitude below the horizon may be given as a negative angle.
pub fn classify(elevation: i64) -> (light: Light)
    ensures
        light == light_at(elevation as int),
        light.covers(normalized(elevation as int)),
        forall|other: Light| #[trigger]
            other.covers(normalized(elevation as int)) ==> other == light,
{
    let norm: i64 = normalize(elevation);
    proof {
        lemma_partition_total(elevation as int);
    }
    if norm < HALF_TURN + SUN_RADIUS {
        Light::Day
    } else if norm < HALF_TURN + CIVIL_DEPTH {
        Light::CivilDusk
    } else if norm < HALF_TURN + NAUTICAL_DEPTH {
        Light::NauticalDusk
    } else if norm < HALF_TURN + ASTRONOMICAL_DEPTH {
        Light::AstronomicalDusk
    } else if norm < FULL_TURN - ASTRONOMICAL_DEPTH {
        Light::Night
    } else if norm < FULL_TURN - NAUTICAL_DEPTH {
        Light::AstronomicalDawn
    } else if norm < FULL_TURN - CIVIL_DEPTH {
        Light::NauticalDawn
    } else if norm < FULL_TURN - SUN_RADIUS {
        Light::CivilDawn
    } else {
        Light::Day
    }
}

} // verus!
