//! The discrete parts of the weather model: the kind of precipitation named by
//! a WMO weather code, and the compass octant a wind blows from.

use vstd::prelude::*;

verus! {

/// The kind of falling precipitation.
#[derive(Debug, Clone, Copy, PartialEq, Eq, Structural)]
pub enum PrecipitationKind {
    Rain,
    Snow,
    Sleet,
    Hail,
}

/// The precipitation kind that a WMO weather code names: snow for the snow
/// codes (71, 73, 75, 77, 85, 86), sleet for freezing drizzle and freezing rain
/// (56, 57, 66, 67), hail for thunderstorms with hail (96, 99), rain otherwise.
pub open spec fn precipitation_kind_of_code(code: u8) -> PrecipitationKind {
    if code == 71 || code == 73 || code == 75 || code == 77 || code == 85 || code == 86 {
        PrecipitationKind::Snow
    } else if code == 56 || code == 57 || code == 66 || code == 67 {
        PrecipitationKind::Sleet
    } else if code == 96 || code == 99 {
        PrecipitationKind::Hail
    } else {
        PrecipitationKind::Rain
    }
}

impl PrecipitationKind {
    /// Classifies a WMO weather code.
    pub fn from_weather_code(code: u8) -> (kind: PrecipitationKind)
        ensures
            kind == precipitation_kind_of_code(code),
            kind == PrecipitationKind::Snow <==> (code == 71 || code == 73 || code == 75 || code
                == 77 || code == 85 || code == 86),
            kind == PrecipitationKind::Sleet <==> (code == 56 || code == 57 || code == 66 || code
                == 67),
            kind == PrecipitationKind::Hail <==> (code == 96 || code == 99),
    {
        match code {
            71 | 73 | 75 | 77 | 85 | 86 => PrecipitationKind::Snow,
            56 | 57 | 66 | 67 => PrecipitationKind::Sleet,
            96 | 99 => PrecipitationKind::Hail,
            _ => PrecipitationKind::Rain,
        }
    }
}

/// Which codes name which precipitation: snow exactly for 71, 73, 75, 77, 85 and 86,
/// sleet exactly for 56, 57, 66 and 67, hail exactly for 96 and 99, and rain for
/// every other code (the drizzle codes 51, 53, 55 among them).
pub proof fn lemma_weather_code_classes(code: u8)
    ensures
        precipitation_kind_of_code(code) == PrecipitationKind::Snow <==> (code == 71 || code == 73
            || code == 75 || code == 77 || code == 85 || code == 86),
        precipitation_kind_of_code(code) == PrecipitationKind::Sleet <==> (code == 56 || code == 57
            || code == 66 || code == 67),
        precipitation_kind_of_code(code) == PrecipitationKind::Hail <==> (code == 96 || code == 99),
        precipitation_kind_of_code(code) == PrecipitationKind::Rain <==> !(code == 71 || code == 73
            || code == 75 || code == 77 || code == 85 || code == 86 || code == 56 || code == 57
            || code == 66 || code == 67 || code == 96 || code == 99),
{
}

/// A compass octant.
#[derive(Debug, Clone, Copy, PartialEq, Eq, Structural)]
pub enum Direction {
    N,
    NW,
    W,
    SW,
    S,
    SE,
    E,
    NE,
}

/// The octant's position clockwise from north: N is 0, NE 1, E 2, ..., NW 7.
pub open spec fn octant_index(d: Direction) -> int {
    match d {
        Direction::N => 0,
        Direction::NE => 1,
        Direction::E => 2,
        Direction::SE => 3,
        Direction::S => 4,
        Direction::SW => 5,
        Direction::W => 6,
        Direction::NW => 7,
    }
}

/// The octant at position `i` (taken modulo 8) clockwise from north.
pub open spec fn octant_at(i: int) -> Direction {
    let k = i % 8;
    if k == 0 {
        Direction::N
    } else if k == 1 {
        Direction::NE
    } else if k == 2 {
        Direction::E
    } else if k == 3 {
        Direction::SE
    } else if k == 4 {
        Direction::S
    } else if k == 5 {
        Direction::SW
    } else if k == 6 {
        Direction::W
    } else {
        Direction::NW
    }
}

/// `degrees / 45` rounded to the nearest integer. For a whole number of degrees
/// the quotient is never halfway between two integers, so the rounding is exact.
pub open spec fn nearest_octant_step(degrees: int) -> int {
    (2 * degrees + 45) / 90
}

/// The horizontal sign of a wind that blows *from* `d` (meteorological
/// convention), with x growing eastward: a wind from the east blows westward (-1),
/// one from the west eastward (+1), and one from due north or south has no
/// horizontal part (0).
pub open spec fn horizontal_sign_of(d: Direction) -> int {
    match d {
        Direction::N | Direction::S => 0,
        Direction::E | Direction::NE | Direction::SE => -1,
        Direction::W | Direction::NW | Direction::SW => 1,
    }
}

impl Direction {
    /// The octant nearest to a bearing in degrees: `degrees / 45` rounded, modulo 8.
    pub fn from_degrees(degrees: u16) -> (d: Direction)
        ensures
            d == octant_at(nearest_octant_step(degrees as int)),
            octant_index(d) == nearest_octant_step(degrees as int) % 8,
            45 * nearest_octant_step(degrees as int) - 22 <= degrees <= 45 * nearest_octant_step(
                degrees as int,
            ) + 22,
    {
        let step: u32 = (2 * (degrees as u32) + 45) / 90;
        match step % 8 {
            0 => Direction::N,
            1 => Direction::NE,
            2 => Direction::E,
            3 => Direction::SE,
            4 => Direction::S,
            5 => Direction::SW,
            6 => Direction::W,
            _ => Direction::NW,
        }
    }

    /// The sign (-1, 0 or 1) of the eastward component of a wind blowing from this octant.
    pub fn horizontal_sign(&self) -> (s: i8)
        ensures
            s as int == horizontal_sign_of(*self),
            s == 0 <==> (*self == Direction::N || *self == Direction::S),
            s == -1 <==> (*self == Direction::E || *self == Direction::NE || *self == Direction::SE),
            s == 1 <==> (*self == Direction::W || *self == Direction::NW || *self == Direction::SW),
    {
        match self {
            Direction::N | Direction::S => 0,
            Direction::E | Direction::NE | Direction::SE => -1,
            Direction::W | Direction::NW | Direction::SW => 1,
        }
    }
}

/// A wind blows westward exactly when it comes from the east side (E, NE, SE),
/// eastward exactly when it comes from the west side (W, NW, SW), and has no
/// horizontal part exactly when it comes from due north or south.
pub proof fn lemma_horizontal_sign_by_side(d: Direction)
    ensures
        horizontal_sign_of(d) == 0 <==> (d == Direction::N || d == Direction::S),
        horizontal_sign_of(d) == -1 <==> (d == Direction::E || d == Direction::NE || d
            == Direction::SE),
        horizontal_sign_of(d) == 1 <==> (d == Direction::W || d == Direction::NW || d
            == Direction::SW),
{
}

/// Bearings a full turn apart name the same octant.
pub proof fn lemma_from_degrees_full_turn(degrees: int)
    requires
        0 <= degrees,
    ensures
        octant_at(nearest_octant_step(degrees + 360)) == octant_at(nearest_octant_step(degrees)),
{
    assert(nearest_octant_step(degrees + 360) == nearest_octant_step(degrees) + 8);
}

/// Each octant is found again from its own bearing, `45 * index` degrees.
pub proof fn lemma_from_degrees_of_octant(d: Direction)
    ensures
        octant_at(nearest_octant_step(45 * octant_index(d))) == d,
{
}

/// Winds from opposite octants blow in opposite horizontal directions.
pub proof fn lemma_opposite_winds_drift_oppositely(d: Direction)
    ensures
        horizontal_sign_of(octant_at(octant_index(d) + 4)) == -horizontal_sign_of(d),
{
}

} // verus!
