use solar_wallpaper::angle::{AngleRange, DEGREE, FULL_TURN, HALF_TURN};
use solar_wallpaper::light::{classify, Light};
use solar_wallpaper::position::{LightGeneric, SolarPosition};

const GENERIC: [LightGeneric; 5] = [
    LightGeneric::Day,
    LightGeneric::Night,
    LightGeneric::AstronomicalTwilight,
    LightGeneric::NauticalTwilight,
    LightGeneric::CivilTwilight,
];

fn range(start: i64, end: i64) -> AngleRange {
    AngleRange { start, end }
}

#[test]
fn the_bounds_of_each_generic_light() {
    assert_eq!(
        LightGeneric::Day.altitude_bounds(),
        vec![range(-250_000, 0), range(0, 360_000_000)]
    );
    assert_eq!(
        LightGeneric::AstronomicalTwilight.altitude_bounds(),
        vec![range(-18_000_000, -12_000_000)]
    );
    assert_eq!(
        LightGeneric::NauticalTwilight.altitude_bounds(),
        vec![range(-12_000_000, -6_000_000)]
    );
    assert_eq!(LightGeneric::CivilTwilight.altitude_bounds(), vec![range(-6_000_000, -250_000)]);
    assert_eq!(LightGeneric::Night.altitude_bounds(), vec![range(-360_000_000, -18_000_000)]);
}

#[test]
fn a_signed_altitude_has_one_generic_light() {
    let mut elevation = -FULL_TURN;
    while elevation < FULL_TURN {
        let found = LightGeneric::at(elevation).unwrap();
        let owners: Vec<LightGeneric> =
            GENERIC.iter().copied().filter(|g| g.contains(elevation)).collect();
        assert_eq!(owners, vec![found], "at {}", elevation);
        elevation += 62_500;
    }
    assert_eq!(LightGeneric::at(-FULL_TURN), Some(LightGeneric::Night));
    assert_eq!(LightGeneric::at(FULL_TURN - 1), Some(LightGeneric::Day));
    assert_eq!(LightGeneric::at(FULL_TURN), None);
    assert_eq!(LightGeneric::at(-FULL_TURN - 1), None);
}

#[test]
fn the_limits_of_the_generic_lights() {
    assert_eq!(LightGeneric::at(0), Some(LightGeneric::Day));
    assert_eq!(LightGeneric::at(-250_000), Some(LightGeneric::Day));
    assert_eq!(LightGeneric::at(-250_001), Some(LightGeneric::CivilTwilight));
    assert_eq!(LightGeneric::at(-6 * DEGREE), Some(LightGeneric::CivilTwilight));
    assert_eq!(LightGeneric::at(-6 * DEGREE - 1), Some(LightGeneric::NauticalTwilight));
    assert_eq!(LightGeneric::at(-12 * DEGREE), Some(LightGeneric::NauticalTwilight));
    assert_eq!(LightGeneric::at(-12 * DEGREE - 1), Some(LightGeneric::AstronomicalTwilight));
    assert_eq!(LightGeneric::at(-18 * DEGREE), Some(LightGeneric::AstronomicalTwilight));
    assert_eq!(LightGeneric::at(-18 * DEGREE - 1), Some(LightGeneric::Night));
}

#[test]
fn the_azimuth_tells_dawn_from_dusk() {
    let morning = 90 * DEGREE;
    let evening = 270 * DEGREE;
    assert_eq!(LightGeneric::Day.to_specific(morning), Light::Day);
    assert_eq!(LightGeneric::Day.to_specific(evening), Light::Day);
    assert_eq!(LightGeneric::Night.to_specific(morning), Light::Night);
    assert_eq!(LightGeneric::Night.to_specific(evening), Light::Night);
    assert_eq!(LightGeneric::AstronomicalTwilight.to_specific(morning), Light::AstronomicalDawn);
    assert_eq!(LightGeneric::AstronomicalTwilight.to_specific(evening), Light::AstronomicalDusk);
    assert_eq!(LightGeneric::NauticalTwilight.to_specific(morning), Light::NauticalDawn);
    assert_eq!(LightGeneric::NauticalTwilight.to_specific(evening), Light::NauticalDusk);
    assert_eq!(LightGeneric::CivilTwilight.to_specific(morning), Light::CivilDawn);
    assert_eq!(LightGeneric::CivilTwilight.to_specific(evening), Light::CivilDusk);
    assert_eq!(LightGeneric::CivilTwilight.to_specific(HALF_TURN - 1), Light::CivilDawn);
    assert_eq!(LightGeneric::CivilTwilight.to_specific(HALF_TURN), Light::CivilDusk);
}

#[test]
fn a_position_needs_a_zenith_angle_within_half_a_turn() {
    assert!(SolarPosition::new(0, 0).is_some());
    assert!(SolarPosition::new(0, HALF_TURN).is_some());
    assert!(SolarPosition::new(0, HALF_TURN + 1).is_none());
    assert!(SolarPosition::new(0, -1).is_none());
    assert!(SolarPosition::new(i64::MAX, 0).is_some());
    assert!(SolarPosition::new(0, i64::MIN).is_none());
    let position = SolarPosition::new(195_510_038, 54_036_537).unwrap();
    assert_eq!(position.azimuth(), 195_510_038);
    assert_eq!(position.zenith_angle(), 54_036_537);
    assert_eq!(position.elevation(), 35_963_463);
}

#[test]
fn the_light_of_a_position() {
    let light = |azimuth: i64, zenith: i64| {
        Light::from(SolarPosition::new(azimuth * DEGREE, zenith * DEGREE).unwrap())
    };
    assert_eq!(light(100, 30), Light::Day);
    assert_eq!(light(260, 30), Light::Day);
    assert_eq!(light(100, 90), Light::Day);
    assert_eq!(light(100, 93), Light::CivilDawn);
    assert_eq!(light(260, 93), Light::CivilDusk);
    assert_eq!(light(100, 100), Light::NauticalDawn);
    assert_eq!(light(260, 100), Light::NauticalDusk);
    assert_eq!(light(100, 105), Light::AstronomicalDawn);
    assert_eq!(light(260, 105), Light::AstronomicalDusk);
    assert_eq!(light(100, 108), Light::AstronomicalDawn);
    assert_eq!(light(100, 150), Light::Night);
    assert_eq!(light(260, 180), Light::Night);
    let edge = SolarPosition::new(100 * DEGREE, 90_250_000).unwrap();
    assert_eq!(Light::from(edge), Light::Day);
    let below = SolarPosition::new(100 * DEGREE, 90_250_001).unwrap();
    assert_eq!(Light::from(below), Light::CivilDawn);
}

#[test]
fn in_the_morning_a_position_has_the_light_of_its_altitude() {
    let mut zenith = 0;
    while zenith <= HALF_TURN {
        let position = SolarPosition::new(90 * DEGREE, zenith).unwrap();
        assert_eq!(Light::from(position), classify(position.elevation()), "zenith {}", zenith);
        zenith += 125_000;
    }
}

#[test]
fn in_the_evening_a_position_has_the_light_of_its_mirrored_altitude() {
    let limits = [-250_000, -6 * DEGREE, -12 * DEGREE, -18 * DEGREE];
    let mut zenith = 1;
    while zenith <= HALF_TURN {
        let position = SolarPosition::new(270 * DEGREE, zenith).unwrap();
        let elevation = position.elevation();
        assert!(!limits.contains(&elevation));
        assert_eq!(Light::from(position), classify(HALF_TURN - elevation), "zenith {}", zenith);
        zenith += 125_000;
    }
    let on_limit = SolarPosition::new(270 * DEGREE, 108 * DEGREE).unwrap();
    assert_eq!(Light::from(on_limit), Light::AstronomicalDusk);
    assert_eq!(classify(HALF_TURN - on_limit.elevation()), Light::Night);
}
