use weather_tui::braille::dots_to_braille;

fn single_dot(row: usize, col: usize) -> [[bool; 2]; 4] {
    std::array::from_fn(|x| std::array::from_fn(|y| x == row && y == col))
}

fn code(dots: [[bool; 2]; 4]) -> u32 {
    dots_to_braille(dots) as u32
}

#[test]
fn dot_to_braille_mapping_top_left() {
    assert_eq!(code(single_dot(0, 0)), 0x2800 | 0x01);
}

#[test]
fn dot_to_braille_mapping_top_right() {
    assert_eq!(code(single_dot(0, 1)), 0x2800 | 0x08);
}

#[test]
fn dot_to_braille_mapping_2nd_row_left() {
    assert_eq!(code(single_dot(1, 0)), 0x2800 | 0x02);
}

#[test]
fn dot_to_braille_mapping_2nd_row_right() {
    assert_eq!(code(single_dot(1, 1)), 0x2800 | 0x10);
}

#[test]
fn dot_to_braille_mapping_3rd_row_left() {
    assert_eq!(code(single_dot(2, 0)), 0x2800 | 0x04);
}

#[test]
fn dot_to_braille_mapping_3rd_row_right() {
    assert_eq!(code(single_dot(2, 1)), 0x2800 | 0x20);
}

#[test]
fn dot_to_braille_mapping_bottom_left() {
    assert_eq!(code(single_dot(3, 0)), 0x2800 | 0x40);
}

#[test]
fn dot_to_braille_mapping_bottom_right() {
    assert_eq!(code(single_dot(3, 1)), 0x2800 | 0x80);
}

#[test]
fn dot_to_braille_mapping_all() {
    assert_eq!(code([[true; 2]; 4]), 0x28ff);
}

#[test]
fn blank_cell_is_blank_pattern() {
    assert_eq!(dots_to_braille([[false; 2]; 4]), '\u{2800}');
}

#[test]
fn left_column_is_dots_1_2_3_7() {
    let dots = [[true, false], [true, false], [true, false], [true, false]];
    assert_eq!(dots_to_braille(dots), '\u{2847}');
}

#[test]
fn every_pattern_gets_its_own_character() {
    let mut seen = std::collections::HashSet::new();
    for m in 0u32..256 {
        let dots: [[bool; 2]; 4] =
            std::array::from_fn(|r| std::array::from_fn(|c| (m >> (r * 2 + c)) & 1 == 1));
        let ch = dots_to_braille(dots);
        assert!((0x2800..=0x28ff).contains(&(ch as u32)));
        assert!(seen.insert(ch));
    }
    assert_eq!(seen.len(), 256);
}
