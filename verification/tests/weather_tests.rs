use weather_tui::weather::{Direction, PrecipitationKind};

#[test]
fn snow_codes() {
    for code in [71u8, 73, 75, 77, 85, 86] {
        assert_eq!(PrecipitationKind::from_weather_code(code), PrecipitationKind::Snow);
    }
}

#[test]
fn sleet_codes() {
    for code in [56u8, 57, 66, 67] {
        assert_eq!(PrecipitationKind::from_weather_code(code), PrecipitationKind::Sleet);
    }
}

#[test]
fn hail_codes() {
    for code in [96u8, 99] {
        assert_eq!(PrecipitationKind::from_weather_code(code), PrecipitationKind::Hail);
    }
}

#[test]
fn other_codes_are_rain() {
    for code in [0u8, 51, 61, 63, 65, 80, 81, 82, 95, 255] {
        assert_eq!(PrecipitationKind::from_weather_code(code), PrecipitationKind::Rain);
    }
}

#[test]
fn cardinal_bearings() {
    assert_eq!(Direction::from_degrees(0), Direction::N);
    assert_eq!(Direction::from_degrees(90), Direction::E);
    assert_eq!(Direction::from_degrees(180), Direction::S);
    assert_eq!(Direction::from_degrees(270), Direction::W);
    assert_eq!(Direction::from_degrees(360), Direction::N);
}

#[test]
fn intercardinal_bearings() {
    assert_eq!(Direction::from_degrees(45), Direction::NE);
    assert_eq!(Direction::from_degrees(135), Direction::SE);
    assert_eq!(Direction::from_degrees(225), Direction::SW);
    assert_eq!(Direction::from_degrees(315), Direction::NW);
}

#[test]
fn bearings_round_to_nearest_octant() {
    assert_eq!(Direction::from_degrees(22), Direction::N);
    assert_eq!(Direction::from_degrees(23), Direction::NE);
    assert_eq!(Direction::from_degrees(67), Direction::NE);
    assert_eq!(Direction::from_degrees(68), Direction::E);
    assert_eq!(Direction::from_degrees(337), Direction::NW);
    assert_eq!(Direction::from_degrees(338), Direction::N);
}

#[test]
fn bearings_agree_with_float_rounding() {
    let octants = [
        Direction::N,
        Direction::NE,
        Direction::E,
        Direction::SE,
        Direction::S,
        Direction::SW,
        Direction::W,
        Direction::NW,
    ];
    for degrees in 0..=u16::MAX {
        let expected = ((degrees as f32 / 45.0).round() as u16) % 8;
        assert_eq!(Direction::from_degrees(degrees), octants[expected as usize]);
    }
}

#[test]
fn full_turn_gives_same_octant() {
    for degrees in 0u16..1000 {
        assert_eq!(Direction::from_degrees(degrees), Direction::from_degrees(degrees + 360));
    }
}

#[test]
fn horizontal_sign_follows_wind_origin() {
    assert_eq!(Direction::N.horizontal_sign(), 0);
    assert_eq!(Direction::S.horizontal_sign(), 0);
    assert_eq!(Direction::E.horizontal_sign(), -1);
    assert_eq!(Direction::NE.horizontal_sign(), -1);
    assert_eq!(Direction::SE.horizontal_sign(), -1);
    assert_eq!(Direction::W.horizontal_sign(), 1);
    assert_eq!(Direction::NW.horizontal_sign(), 1);
    assert_eq!(Direction::SW.horizontal_sign(), 1);
}

#[test]
fn opposite_winds_have_opposite_signs() {
    assert_eq!(Direction::NE.horizontal_sign(), -Direction::SW.horizontal_sign());
    assert_eq!(Direction::E.horizontal_sign(), -Direction::W.horizontal_sign());
    assert_eq!(Direction::SE.horizontal_sign(), -Direction::NW.horizontal_sign());
    assert_eq!(Direction::N.horizontal_sign(), -Direction::S.horizontal_sign());
}
