//! The integer side of drawing the scene: the animation counter, the rain hash,
//! the ordered-dithering thresholds, and the placement of braille dots on the
//! terminal grid.

use vstd::prelude::*;
use crate::braille::{braille_mask, dots_to_braille, BRAILLE_BASE};

verus! {

/// The view's animation state: a frame counter that wraps around at 2^16.
pub struct WeatherViewState {
    tick_counter: u16,
}

impl WeatherViewState {
    /// The number of frames counted so far, modulo 2^16.
    pub closed spec fn counter(&self) -> u16 {
        self.tick_counter
    }

    /// Counts one frame.
    pub fn tick(&mut self)
        ensures
            final(self).counter() == (old(self).counter() + 1) % 0x1_0000,
    {
        self.tick_counter = self.tick_counter.wrapping_add(1);
    }

    /// The frame counter.
    pub fn tick_counter(&self) -> (n: u16)
        ensures
            n == self.counter(),
    {
        self.tick_counter
    }
}

impl Default for WeatherViewState {
    /// A state whose counter stands at zero.
    fn default() -> (s: WeatherViewState)
        ensures
            s.counter() == 0,
    {
        WeatherViewState { tick_counter: 0 }
    }
}

/// `x` wrapped into the range of a `u16` (Euclidean remainder by 2^16).
pub open spec fn wrap_u16(x: int) -> int {
    x % 0x1_0000
}

/// One round of the rain hash's mixing: xor-shift by 16, then multiply by
/// 0x45d9f3b modulo 2^32.
pub open spec fn hash_mix(n: u32) -> u32 {
    (((n ^ (n >> 16u32)) as nat * 0x45d9f3b) % 0x1_0000_0000) as u32
}

/// The rain hash of a cell: `1619 * col + 31337 * row` (which never exceeds
/// 2^32), mixed twice, then xor-shifted once more.
pub open spec fn rain_hash_spec(col: u16, row: u16) -> u32 {
    let n0 = (1619 * col + 31337 * row) as u32;
    let n2 = hash_mix(hash_mix(n0));
    n2 ^ (n2 >> 16u32)
}

/// The 32-bit hash that decides whether rain is drawn in a cell; the view scales
/// it to `[0, 1]` by dividing by `u32::MAX`.
pub fn rain_hash_bits(col: u16, row: u16) -> (h: u32)
    ensures
        h == rain_hash_spec(col, row),
{
    proof {
        assert(1619 * col <= 1619 * 0xFFFF) by (nonlinear_arith)
            requires
                col <= 0xFFFF,
        ;
        assert(31337 * row <= 31337 * 0xFFFF) by (nonlinear_arith)
            requires
                row <= 0xFFFF,
        ;
    }
    let mut n: u32 = (col as u32).wrapping_mul(1619).wrapping_add((row as u32).wrapping_mul(31337));
    n = (n ^ (n >> 16)).wrapping_mul(0x45d9f3b);
    n = (n ^ (n >> 16)).wrapping_mul(0x45d9f3b);
    n ^ (n >> 16)
}

/// The cell sampled for rain at (`col`, `row`) on frame `tick` under the sideways
/// shift `shift`: `(col - shift, row - tick)`, each wrapped into a `u16`.
pub open spec fn rain_source(col: u16, row: u16, tick: u16, shift: i16) -> (u16, u16) {
    (wrap_u16(col - shift) as u16, wrap_u16(row - tick) as u16)
}

/// The cell whose hash is sampled when drawing rain at (`col`, `row`) on frame
/// `tick`: the pattern is shifted down by `tick` rows and sideways by `shift`
/// columns, both wrapping around at 2^16.
pub fn rain_source_cell(col: u16, row: u16, tick: u16, shift: i16) -> (cell: (u16, u16))
    ensures
        cell == rain_source(col, row, tick, shift),
{
    let d: i32 = col as i32 - shift as i32;
    let c: i32 = if d < 0 {
        d + 0x1_0000
    } else if d >= 0x1_0000 {
        d - 0x1_0000
    } else {
        d
    };
    (c as u16, row.wrapping_sub(tick))
}

/// Rain falls one row per frame: the cell sampled one row lower on the next
/// frame is the one sampled now (rows and frames wrap around at 2^16).
pub proof fn lemma_rain_falls_one_row_per_tick(col: u16, row: u16, tick: u16, shift: i16)
    ensures
        rain_source(col, wrap_u16(row + 1) as u16, wrap_u16(tick + 1) as u16, shift)
            == rain_source(col, row, tick, shift),
{
}

/// Rain drifts with the sideways shift: the cell sampled one column further
/// under a shift larger by one is the one sampled now.
pub proof fn lemma_rain_drifts_with_shift(col: u16, row: u16, tick: u16, shift: i16)
    requires
        shift < 0x7FFF,
    ensures
        rain_source(wrap_u16(col + 1) as u16, row, tick, (shift + 1) as i16) == rain_source(
            col,
            row,
            tick,
            shift,
        ),
{
}

/// The 4x4 Bayer matrix of ordered dithering: the threshold level, out of 16, at
/// column `x` and row `y`.
pub open spec fn bayer_matrix(x: int, y: int) -> u8 {
    if y == 0 {
        if x == 0 { 0 } else if x == 1 { 8 } else if x == 2 { 2 } else { 10 }
    } else if y == 1 {
        if x == 0 { 12 } else if x == 1 { 4 } else if x == 2 { 14 } else { 6 }
    } else if y == 2 {
        if x == 0 { 3 } else if x == 1 { 11 } else if x == 2 { 1 } else { 9 }
    } else {
        if x == 0 { 15 } else if x == 1 { 7 } else if x == 2 { 13 } else { 5 }
    }
}

/// The cell of the Bayer matrix that holds `level`, as (column, row).
pub open spec fn bayer_position(level: int) -> (int, int) {
    if level == 0 { (0, 0) } else if level == 1 { (2, 2) } else if level == 2 { (2, 0) }
    else if level == 3 { (0, 2) } else if level == 4 { (1, 1) } else if level == 5 { (3, 3) }
    else if level == 6 { (3, 1) } else if level == 7 { (1, 3) } else if level == 8 { (1, 0) }
    else if level == 9 { (3, 2) } else if level == 10 { (3, 0) } else if level == 11 { (1, 2) }
    else if level == 12 { (0, 1) } else if level == 13 { (2, 3) } else if level == 14 { (2, 1) }
    else { (0, 3) }
}

/// The dithering level at (`x`, `y`) of the 4x4 Bayer matrix; the view's
/// threshold there is `level / 16`.
pub fn bayer_level(x: usize, y: usize) -> (level: u8)
    requires
        x < 4,
        y < 4,
    ensures
        level == bayer_matrix(x as int, y as int),
        level < 16,
{
    if y == 0 {
        if x == 0 { 0 } else if x == 1 { 8 } else if x == 2 { 2 } else { 10 }
    } else if y == 1 {
        if x == 0 { 12 } else if x == 1 { 4 } else if x == 2 { 14 } else { 6 }
    } else if y == 2 {
        if x == 0 { 3 } else if x == 1 { 11 } else if x == 2 { 1 } else { 9 }
    } else {
        if x == 0 { 15 } else if x == 1 { 7 } else if x == 2 { 13 } else { 5 }
    }
}

/// Every threshold level from 0 to 15 occurs exactly once in the Bayer matrix:
/// each cell's level leads back to that cell, and each level's cell holds it.
pub proof fn lemma_bayer_levels_are_a_permutation()
    ensures
        forall|x: int, y: int|
            0 <= x < 4 && 0 <= y < 4 ==> #[trigger] bayer_matrix(x, y) < 16 && bayer_position(
                bayer_matrix(x, y) as int,
            ) == (x, y),
        forall|level: int|
            0 <= level < 16 ==> {
                let (x, y) = #[trigger] bayer_position(level);
                &&& 0 <= x < 4
                &&& 0 <= y < 4
                &&& bayer_matrix(x, y) == level
            },
{
}

/// The size in braille dots of `columns` x `rows` terminal cells: each cell holds
/// two dots across and four down.
pub fn cells_to_dots(columns: u16, rows: u16) -> (size: (u32, u32))
    ensures
        size.0 == 2 * columns,
        size.1 == 4 * rows,
{
    (2 * columns as u32, 4 * rows as u32)
}

/// The dot coordinates of the dot at (`dot_row`, `dot_col`) inside the cell at
/// (`col`, `row`).
pub fn dot_position(col: u16, row: u16, dot_row: usize, dot_col: usize) -> (pos: (u32, u32))
    requires
        dot_row < 4,
        dot_col < 2,
    ensures
        pos.0 == 2 * col + dot_col,
        pos.1 == 4 * row + dot_row,
{
    (2 * col as u32 + dot_col as u32, 4 * row as u32 + dot_row as u32)
}

/// Every dot of a `columns` x `rows` cell area lies in some cell of the area: the
/// cell `(x / 2, y / 4)`, at position `(y % 4, x % 2)` inside it.
pub proof fn lemma_dots_tile_cells(columns: int, rows: int, x: int, y: int)
    requires
        0 <= x < 2 * columns,
        0 <= y < 4 * rows,
    ensures
        0 <= x / 2 < columns,
        0 <= y / 4 < rows,
        2 * (x / 2) + x % 2 == x,
        4 * (y / 4) + y % 4 == y,
{
}

/// No dot lies in two cells: a cell and a position inside it that give the dot
/// `(x, y)` are `(x / 2, y / 4)` and `(y % 4, x % 2)`.
pub proof fn lemma_dot_cell_unique(x: int, y: int, col: int, row: int, dot_col: int, dot_row: int)
    requires
        0 <= dot_col < 2,
        0 <= dot_row < 4,
        2 * col + dot_col == x,
        4 * row + dot_row == y,
    ensures
        col == x / 2,
        row == y / 4,
        dot_col == x % 2,
        dot_row == y % 4,
{
}

/// Whether any dot of the cell is raised.
pub open spec fn any_dot_raised(dots: [[bool; 2]; 4]) -> bool {
    exists|r: int, c: int| 0 <= r < 4 && 0 <= c < 2 && #[trigger] dots[r][c]
}

/// The character drawn for a cloud cell: nothing when no dot is raised, the
/// braille pattern of the raised dots otherwise.
pub fn cell_glyph(dots: [[bool; 2]; 4]) -> (glyph: Option<char>)
    ensures
        glyph is None <==> !any_dot_raised(dots),
        glyph matches Some(c) ==> c as u32 == BRAILLE_BASE | braille_mask(dots),
{
    let mut row: usize = 0;
    while row < 4
        invariant
            row <= 4,
            forall|r: int, c: int| 0 <= r < row && 0 <= c < 2 ==> !dots[r][c],
        decreases 4 - row,
    {
        if dots[row][0] || dots[row][1] {
            return Some(dots_to_braille(dots));
        }
        row = row + 1;
    }
    None
}

} // verus!
