use solar_wallpaper::angle::{any_contains, AngleRange, DEGREE};
use solar_wallpaper::during::{push_pair_ranges, recenter, During, Folder, Item, Token};
use solar_wallpaper::error::Error;
use solar_wallpaper::light::Light;

fn deg(start: i64, end: i64) -> AngleRange {
    AngleRange { start: start * DEGREE, end: end * DEGREE }
}

fn number(degrees: i64) -> Token {
    Token::Number(degrees * DEGREE)
}

fn parts(during: During) -> (Vec<Light>, Vec<AngleRange>, Vec<AngleRange>) {
    match during {
        During::Lights(lights) => (lights, vec![], vec![]),
        During::Elevation { rising, setting } => (vec![], rising, setting),
        During::LightsAndElevation { lights, rising, setting } => (lights, rising, setting),
        During::Any => panic!("a list never folds into the fallback"),
    }
}

#[test]
fn a_rising_pair_across_the_seam_is_one_range_without_a_gap() {
    let during = During::from_tokens(&vec![number(340), number(15)]);
    assert!(matches!(during, During::Elevation { .. }));
    let (lights, rising, setting) = parts(during);
    assert!(lights.is_empty());
    assert_eq!(rising, vec![deg(-20, 15)]);
    assert!(setting.is_empty());
    for x in [-20 * DEGREE, -1, 0, 1, 15 * DEGREE - 1] {
        assert!(any_contains(&rising, x), "{} is left out", x);
    }
    assert!(!any_contains(&rising, -20 * DEGREE - 1));
    assert!(!any_contains(&rising, 15 * DEGREE));
}

#[test]
fn a_setting_pair_across_the_seam_is_cut_at_zero_without_a_gap() {
    let during = During::from_tokens(&vec![number(-345), number(-20)]);
    assert!(matches!(during, During::Elevation { .. }));
    let (lights, rising, setting) = parts(during);
    assert!(lights.is_empty());
    assert!(rising.is_empty());
    assert_eq!(setting, vec![deg(0, 15), deg(-20, 0)]);
    for x in [-20 * DEGREE, -1, 0, 1, 15 * DEGREE - 1] {
        assert!(any_contains(&setting, x), "{} is left out", x);
    }
    assert!(!any_contains(&setting, -20 * DEGREE - 1));
    assert!(!any_contains(&setting, 15 * DEGREE));
}

#[test]
fn a_light_between_two_angles_does_not_part_them() {
    let tokens = vec![number(10), Token::Light(Light::Day), number(20), number(30)];
    let mut folder = Folder::new();
    for token in &tokens {
        folder.push(*token);
    }
    assert_eq!(folder.lights, vec![Light::Day]);
    assert_eq!(folder.rising, vec![deg(10, 20)]);
    assert!(folder.setting.is_empty());
    assert_eq!(folder.pending, Some(30 * DEGREE));
    let during = folder.finish();
    assert!(matches!(during, During::LightsAndElevation { .. }));
    assert_eq!(parts(during), (vec![Light::Day], vec![deg(10, 20)], vec![]));
    let same = During::from_tokens(&tokens);
    assert_eq!(parts(same), (vec![Light::Day], vec![deg(10, 20)], vec![]));
}

#[test]
fn the_waiting_angle_pairs_with_the_next_one() {
    let mut folder = Folder::new();
    assert_eq!(folder.pending, None);
    folder.push(number(10));
    assert_eq!(folder.pending, Some(10 * DEGREE));
    folder.push(Token::Light(Light::Night));
    folder.push(Token::Light(Light::Day));
    assert_eq!(folder.pending, Some(10 * DEGREE));
    folder.push(number(20));
    assert_eq!(folder.pending, None);
    folder.push(number(30));
    folder.push(number(40));
    assert_eq!(folder.rising, vec![deg(10, 20), deg(30, 40)]);
    assert_eq!(folder.lights, vec![Light::Night, Light::Day]);
}

#[test]
fn a_pair_of_two_signs_gives_no_range() {
    let during = During::from_tokens(&vec![number(10), number(-20), number(30), number(40)]);
    assert_eq!(parts(during), (vec![], vec![deg(30, 40)], vec![]));
    let during = During::from_tokens(&vec![number(-10), number(20), number(-40), number(-30)]);
    assert_eq!(parts(during), (vec![], vec![], vec![deg(-40, -30)]));
    let during = During::from_tokens(&vec![number(0), number(-20)]);
    assert!(matches!(&during, During::Lights(lights) if lights.is_empty()));
}

#[test]
fn zero_counts_as_positive() {
    let during = During::from_tokens(&vec![number(0), number(20)]);
    assert_eq!(parts(during), (vec![], vec![deg(0, 20)], vec![]));
}

#[test]
fn recenter_brings_each_half_into_its_domain() {
    assert_eq!(recenter(340 * DEGREE), -20 * DEGREE);
    assert_eq!(recenter(15 * DEGREE), 15 * DEGREE);
    assert_eq!(recenter(180 * DEGREE), 180 * DEGREE);
    assert_eq!(recenter(180 * DEGREE + 1), -180 * DEGREE + 1);
    assert_eq!(recenter(700 * DEGREE), -20 * DEGREE);
    assert_eq!(recenter(360 * DEGREE), 0);
    assert_eq!(recenter(-345 * DEGREE), 15 * DEGREE);
    assert_eq!(recenter(-20 * DEGREE), -20 * DEGREE);
    assert_eq!(recenter(-180 * DEGREE), -180 * DEGREE);
    assert_eq!(recenter(-180 * DEGREE - 1), 180 * DEGREE - 1);
    assert_eq!(recenter(-705 * DEGREE), 15 * DEGREE);
    assert_eq!(recenter(-360 * DEGREE), 0);
}

#[test]
fn a_pair_out_of_order_is_cut_at_zero() {
    let mut ranges = vec![deg(1, 2)];
    push_pair_ranges(&mut ranges, 30 * DEGREE, 10 * DEGREE);
    assert_eq!(ranges, vec![deg(1, 2), deg(0, 30), deg(10, 0)]);
    let mut ranges = Vec::new();
    push_pair_ranges(&mut ranges, 30 * DEGREE, 0);
    assert_eq!(ranges, vec![deg(0, 30)]);
    let mut ranges = Vec::new();
    push_pair_ranges(&mut ranges, 30 * DEGREE, 360 * DEGREE);
    assert_eq!(ranges, vec![deg(0, 30)]);
    let mut ranges = Vec::new();
    push_pair_ranges(&mut ranges, 20 * DEGREE, 340 * DEGREE);
    assert_eq!(ranges, vec![deg(0, 20), deg(-20, 0)]);
    let mut ranges = Vec::new();
    push_pair_ranges(&mut ranges, -20 * DEGREE, -345 * DEGREE);
    assert_eq!(ranges, vec![deg(-20, 15)]);
    let mut ranges = Vec::new();
    push_pair_ranges(&mut ranges, 10 * DEGREE, 10 * DEGREE);
    assert_eq!(ranges, vec![deg(10, 10)]);
}

#[test]
fn the_kind_of_condition_follows_what_was_gathered() {
    let lights_only = During::from_tokens(&vec![
        Token::Light(Light::Day),
        Token::Light(Light::CivilDusk),
    ]);
    assert!(matches!(&lights_only, During::Lights(l) if *l == vec![Light::Day, Light::CivilDusk]));

    let setting_only = During::from_tokens(&vec![number(-30), number(-10)]);
    assert!(matches!(setting_only, During::Elevation { .. }));
    assert_eq!(parts(setting_only), (vec![], vec![], vec![deg(-30, -10)]));

    let both = During::from_tokens(&vec![number(-30), Token::Light(Light::Night), number(-10)]);
    assert!(matches!(both, During::LightsAndElevation { .. }));
    assert_eq!(parts(both), (vec![Light::Night], vec![], vec![deg(-30, -10)]));

    let nothing = During::from_tokens(&vec![]);
    assert!(matches!(&nothing, During::Lights(l) if l.is_empty()));
    assert!(!nothing.is_met(Light::Day, 0, 0));

    let one_angle = During::from_tokens(&vec![number(10)]);
    assert!(matches!(&one_angle, During::Lights(l) if l.is_empty()));
}

#[test]
fn items_are_read_into_tokens() {
    assert_eq!(Item::Number(5).to_token(), Ok(Token::Number(5)));
    assert_eq!(Item::Text("night".to_string()).to_token(), Ok(Token::Light(Light::Night)));
    assert_eq!(Item::Text("noon".to_string()).to_token(), Err(Error::UnknownLight));
    assert_eq!(Item::Text("any".to_string()).to_token(), Err(Error::UnknownLight));
}

#[test]
fn a_written_list_folds_as_its_tokens_do() {
    let items = vec![
        Item::Number(10 * DEGREE),
        Item::Text("day".to_string()),
        Item::Number(20 * DEGREE),
        Item::Number(30 * DEGREE),
    ];
    let during = During::from_items(&items).unwrap();
    assert_eq!(parts(during), (vec![Light::Day], vec![deg(10, 20)], vec![]));
}

#[test]
fn an_unknown_name_in_a_list_is_refused() {
    let items = vec![
        Item::Text("day".to_string()),
        Item::Text("teatime".to_string()),
        Item::Number(20 * DEGREE),
    ];
    assert!(matches!(During::from_items(&items), Err(Error::UnknownLight)));
}

#[test]
fn a_single_text_is_the_fallback_or_one_light() {
    assert!(matches!(During::from_text("any"), Ok(During::Any)));
    assert!(matches!(During::from_text("civil dusk"), Ok(During::Lights(l)) if l == vec![Light::CivilDusk]));
    assert!(matches!(During::from_text("Any"), Err(Error::UnknownLight)));
    assert!(matches!(During::from_text(""), Err(Error::UnknownLight)));
}

#[test]
fn only_the_fallback_is_any() {
    assert!(During::Any.is_any());
    assert!(!During::Lights(vec![]).is_any());
    assert!(!During::Elevation { rising: vec![], setting: vec![] }.is_any());
    assert!(!During::LightsAndElevation { lights: vec![], rising: vec![], setting: vec![] }.is_any());
}

#[test]
fn each_failure_has_its_words() {
    assert_eq!(Error::NoMatch.message(), "no configured wallpaper");
    assert_eq!(Error::UnknownLight.message(), "not the name of a light");
}
