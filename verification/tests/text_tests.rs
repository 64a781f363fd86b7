use zmc_core::fixed::{floor_div, saturate_i128};
use zmc_core::text::{
    chars_of, digit, letter, space, string_of, to_upper, trim_bounds, value_of_digit,
};

#[test]
fn characters_of_a_string() {
    assert_eq!(chars_of("G1 \u{e9}\u{1f600}"), vec!['G', '1', ' ', '\u{e9}', '\u{1f600}']);
    assert!(chars_of("").is_empty());
}

#[test]
fn string_of_a_range_of_characters() {
    let chars = vec!['a', '\u{e9}', 'c', 'd'];
    assert_eq!(string_of(&chars, 1, 3), "\u{e9}c");
    assert_eq!(string_of(&chars, 0, 4), "a\u{e9}cd");
    assert_eq!(string_of(&chars, 2, 2), "");
}

#[test]
fn character_classes() {
    for c in ['a', 'z', 'A', 'Z', 'm'] {
        assert!(letter(c));
        assert!(!digit(c));
        assert!(!space(c));
    }
    for c in ['0', '5', '9'] {
        assert!(digit(c));
        assert!(!letter(c));
    }
    for c in ['@', '[', '`', '{', '/', ':', '\u{e9}', '\u{661}'] {
        assert!(!letter(c));
        assert!(!digit(c));
    }
    assert_eq!(value_of_digit('0'), 0);
    assert_eq!(value_of_digit('7'), 7);
    assert_eq!(value_of_digit('9'), 9);
    assert_eq!(to_upper('g'), 'G');
    assert_eq!(to_upper('z'), 'Z');
    assert_eq!(to_upper('G'), 'G');
    assert_eq!(to_upper('1'), '1');
    assert_eq!(to_upper('\u{e9}'), '\u{e9}');
}

#[test]
fn space_agrees_with_the_standard_library() {
    for code in 0..0x3100u32 {
        if let Some(c) = char::from_u32(code) {
            assert_eq!(space(c), c.is_whitespace(), "{:x}", code);
        }
    }
    assert!(!space('\u{feff}'));
    assert!(!space('\u{10ffff}'));
}

#[test]
fn trimming_finds_the_bounds() {
    let chars: Vec<char> = "  a b \t".chars().collect();
    assert_eq!(trim_bounds(&chars, 0, chars.len()), (2, 5));
    assert_eq!(trim_bounds(&chars, 3, chars.len()), (4, 5));
    assert_eq!(trim_bounds(&chars, 0, 2), (2, 2));
    assert_eq!(trim_bounds(&chars, 5, 7), (7, 7));
    assert_eq!(trim_bounds(&chars, 2, 3), (2, 3));
}

#[test]
fn division_rounds_down() {
    assert_eq!(floor_div(7, 2), 3);
    assert_eq!(floor_div(-7, 2), -4);
    assert_eq!(floor_div(-8, 2), -4);
    assert_eq!(floor_div(-1, 1_000_000), -1);
    assert_eq!(floor_div(0, 5), 0);
    assert_eq!(floor_div(i128::MIN, 1), i128::MIN);
    assert_eq!(floor_div(i128::MIN, 2), i128::MIN / 2);
    assert_eq!(floor_div(i128::MAX, 3), i128::MAX / 3);
}

#[test]
fn saturation_holds_to_the_range() {
    assert_eq!(saturate_i128(5), 5);
    assert_eq!(saturate_i128(-5), -5);
    assert_eq!(saturate_i128(i64::MAX as i128 + 1), i64::MAX);
    assert_eq!(saturate_i128(i64::MIN as i128 - 1), i64::MIN);
    assert_eq!(saturate_i128(i128::MAX), i64::MAX);
}
