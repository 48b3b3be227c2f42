//! Encoding of a 2x4 dot cell as a Unicode braille pattern character.

use vstd::prelude::*;

verus! {

/// First code point of the Unicode braille patterns block (the blank pattern).
pub const BRAILLE_BASE: u32 = 0x2800;

/// The bit that the dot at `row` (0..4, top to bottom) and `col` (0..2, left to
/// right) sets in a braille pattern, following the Unicode dot numbering
/// (dots 1-2-3-7 down the left column, 4-5-6-8 down the right one).
pub open spec fn dot_bit(row: int, col: int) -> u32 {
    if col == 0 {
        if row == 0 { 0x01 } else if row == 1 { 0x02 } else if row == 2 { 0x04 } else { 0x40 }
    } else {
        if row == 0 { 0x08 } else if row == 1 { 0x10 } else if row == 2 { 0x20 } else { 0x80 }
    }
}

/// What one dot contributes to the pattern: its bit when raised, nothing otherwise.
pub open spec fn dot_value(raised: bool, bit: u32) -> u32 {
    if raised { bit } else { 0 }
}

/// The pattern bits of a cell: the sum of the bits of its raised dots (the bits
/// are distinct powers of two, so this is also their union).
pub open spec fn braille_mask(dots: [[bool; 2]; 4]) -> u32 {
    (dot_value(dots[0][0], 0x01) + dot_value(dots[0][1], 0x08)
        + dot_value(dots[1][0], 0x02) + dot_value(dots[1][1], 0x10)
        + dot_value(dots[2][0], 0x04) + dot_value(dots[2][1], 0x20)
        + dot_value(dots[3][0], 0x40) + dot_value(dots[3][1], 0x80)) as u32
}

/// The bits of the first `n` dots in row-major order (row 0 left, row 0 right, row 1 left, ...).
spec fn mask_prefix(dots: [[bool; 2]; 4], n: nat) -> u32
    decreases n,
{
    if n == 0 {
        0
    } else {
        let k = n - 1;
        mask_prefix(dots, (n - 1) as nat) | dot_value(dots[k / 2][k % 2], dot_bit(k / 2, k % 2))
    }
}

proof fn lemma_mask_prefix_full(dots: [[bool; 2]; 4])
    ensures
        mask_prefix(dots, 8) == braille_mask(dots),
{
    reveal_with_fuel(mask_prefix, 9);
    let v0 = dot_value(dots[0][0], 0x01);
    let v1 = dot_value(dots[0][1], 0x08);
    let v2 = dot_value(dots[1][0], 0x02);
    let v3 = dot_value(dots[1][1], 0x10);
    let v4 = dot_value(dots[2][0], 0x04);
    let v5 = dot_value(dots[2][1], 0x20);
    let v6 = dot_value(dots[3][0], 0x40);
    let v7 = dot_value(dots[3][1], 0x80);
    assert(0u32 | v0 | v1 | v2 | v3 | v4 | v5 | v6 | v7 == (v0 + v1 + v2 + v3 + v4 + v5 + v6
        + v7) as u32) by (bit_vector)
        requires
            v0 == 0 || v0 == 0x01,
            v1 == 0 || v1 == 0x08,
            v2 == 0 || v2 == 0x02,
            v3 == 0 || v3 == 0x10,
            v4 == 0 || v4 == 0x04,
            v5 == 0 || v5 == 0x20,
            v6 == 0 || v6 == 0x40,
            v7 == 0 || v7 == 0x80,
    ;
}

/// The bit for one dot, as the executable table of the encoding.
fn dot_bit_exec(row: usize, col: usize) -> (bit: u32)
    requires
        row < 4,
        col < 2,
    ensures
        bit == dot_bit(row as int, col as int),
{
    if col == 0 {
        if row == 0 { 0x01 } else if row == 1 { 0x02 } else if row == 2 { 0x04 } else { 0x40 }
    } else {
        if row == 0 { 0x08 } else if row == 1 { 0x10 } else if row == 2 { 0x20 } else { 0x80 }
    }
}

/// `char::from_u32` of std: `Some` exactly for the Unicode scalar values
/// (at most 0x10FFFF and outside the surrogate range 0xD800..=0xDFFF), holding
/// the character whose code point is `code`.
#[verifier::external_body]
fn char_from_u32(code: u32) -> (res: Option<char>)
    ensures
        res is Some <==> (code <= 0x10FFFF && !(0xD800 <= code && code <= 0xDFFF)),
        res matches Some(c) ==> c as u32 == code,
{
    char::from_u32(code)
}

/// The braille pattern character that shows the raised dots of `dots`, where
/// `dots[row][col]` is the dot in row `row` (0..4) and column `col` (0..2).
pub fn dots_to_braille(dots: [[bool; 2]; 4]) -> (c: char)
    ensures
        c as u32 == BRAILLE_BASE | braille_mask(dots),
        c as u32 == BRAILLE_BASE + braille_mask(dots),
{
    let mut mask: u32 = 0;
    let mut row: usize = 0;
    while row < 4
        invariant
            row <= 4,
            mask == mask_prefix(dots, (2 * row) as nat),
        decreases 4 - row,
    {
        let mut col: usize = 0;
        while col < 2
            invariant
                row < 4,
                col <= 2,
                mask == mask_prefix(dots, (2 * row + col) as nat),
            decreases 2 - col,
        {
            let bit = dot_bit_exec(row, col);
            proof {
                let k = 2 * row + col;
                assert(k / 2 == row as int && k % 2 == col as int);
            }
            if dots[row][col] {
                mask = mask | bit;
            } else {
                proof {
                    let m = mask;
                    assert(m | 0u32 == m) by (bit_vector);
                }
            }
            col = col + 1;
        }
        row = row + 1;
    }
    proof {
        lemma_mask_prefix_full(dots);
        lemma_braille_mask_bound(dots);
    }
    let code = BRAILLE_BASE | mask;
    proof {
        let m = mask;
        assert(m <= 0xFF ==> (0x2800u32 | m) == 0x2800u32 + m) by (bit_vector);
    }
    char_from_u32(code).unwrap()
}

/// A cell's pattern bits fit in the low byte.
pub proof fn lemma_braille_mask_bound(dots: [[bool; 2]; 4])
    ensures
        braille_mask(dots) <= 0xFF,
{
}

/// Each dot of a cell is read back from its bit of the pattern: the bit of the dot
/// in row `r` and column `c` is set in the pattern exactly when that dot is raised.
pub proof fn lemma_braille_mask_bits(dots: [[bool; 2]; 4])
    ensures
        forall|r: int, c: int|
            0 <= r < 4 && 0 <= c < 2 ==> ((braille_mask(dots) & #[trigger] dot_bit(r, c)) != 0
                <==> dots[r][c]),
{
    let (b0, b1, b2, b3) = (dots[0][0], dots[0][1], dots[1][0], dots[1][1]);
    let (b4, b5, b6, b7) = (dots[2][0], dots[2][1], dots[3][0], dots[3][1]);
    let m = braille_mask(dots);
    assert(m == ((if b0 { 0x01u32 } else { 0u32 }) + (if b1 { 0x08u32 } else { 0u32 })
        + (if b2 { 0x02u32 } else { 0u32 }) + (if b3 { 0x10u32 } else { 0u32 })
        + (if b4 { 0x04u32 } else { 0u32 }) + (if b5 { 0x20u32 } else { 0u32 })
        + (if b6 { 0x40u32 } else { 0u32 }) + (if b7 { 0x80u32 } else { 0u32 })) as u32);
    assert(
        m == ((if b0 { 0x01u32 } else { 0u32 }) + (if b1 { 0x08u32 } else { 0u32 })
        + (if b2 { 0x02u32 } else { 0u32 }) + (if b3 { 0x10u32 } else { 0u32 })
        + (if b4 { 0x04u32 } else { 0u32 }) + (if b5 { 0x20u32 } else { 0u32 })
        + (if b6 { 0x40u32 } else { 0u32 }) + (if b7 { 0x80u32 } else { 0u32 })) as u32
        ==> {
            &&& ((m & 0x01u32) != 0 <==> b0)
            &&& ((m & 0x08u32) != 0 <==> b1)
            &&& ((m & 0x02u32) != 0 <==> b2)
            &&& ((m & 0x10u32) != 0 <==> b3)
            &&& ((m & 0x04u32) != 0 <==> b4)
            &&& ((m & 0x20u32) != 0 <==> b5)
            &&& ((m & 0x40u32) != 0 <==> b6)
            &&& ((m & 0x80u32) != 0 <==> b7)
        }
    ) by (bit_vector);
}

/// Distinct cells are shown by distinct characters: two dot grids whose braille
/// code points (as `dots_to_braille` states them) are equal are the same grid.
pub proof fn lemma_dots_to_braille_injective(a: [[bool; 2]; 4], b: [[bool; 2]; 4])
    requires
        BRAILLE_BASE | braille_mask(a) == BRAILLE_BASE | braille_mask(b),
    ensures
        a == b,
{
    lemma_braille_mask_bound(a);
    lemma_braille_mask_bound(b);
    let (ma, mb) = (braille_mask(a), braille_mask(b));
    assert(ma <= 0xFF && mb <= 0xFF && (0x2800u32 | ma) == (0x2800u32 | mb) ==> ma == mb)
        by (bit_vector);
    lemma_braille_mask_bits(a);
    lemma_braille_mask_bits(b);
    assert forall|r: int| 0 <= r < 4 implies a[r] == b[r] by {
        assert((ma & dot_bit(r, 0)) != 0 <==> a[r][0]);
        assert((mb & dot_bit(r, 0)) != 0 <==> b[r][0]);
        assert((ma & dot_bit(r, 1)) != 0 <==> a[r][1]);
        assert((mb & dot_bit(r, 1)) != 0 <==> b[r][1]);
        assert(a[r]@ =~= b[r]@);
    }
    assert(a@ =~= b@);
}

} // verus!
