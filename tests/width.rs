use unicode_hfwidth::{is_nonstandard_width, to_fullwidth, to_halfwidth, to_standard_width};

const FULL_KATAKANA: &str = "アイウエオカキクケコサシスセソタチツテトナニヌネノハヒフヘホマミムメモヤユヨラリルレロワン";
const HALF_KATAKANA: &str = "ｱｲｳｴｵｶｷｸｹｺｻｼｽｾｿﾀﾁﾂﾃﾄﾅﾆﾇﾈﾉﾊﾋﾌﾍﾎﾏﾐﾑﾒﾓﾔﾕﾖﾗﾘﾙﾚﾛﾜﾝ";

fn all_chars() -> impl Iterator<Item = char> {
    (0u32..=0x10ffff).filter_map(char::from_u32)
}

#[test]
fn test_katakana() {
    let full = FULL_KATAKANA;
    let half = HALF_KATAKANA;
    for (f, h) in full.chars().zip(half.chars()) {
        assert_eq!(to_fullwidth(h).unwrap(), f);
    }
}

#[test]
fn test_katakana_rev() {
    let full = FULL_KATAKANA;
    let half = HALF_KATAKANA;
    for (f, h) in full.chars().zip(half.chars()) {
        assert_eq!(to_halfwidth(f).unwrap(), h);
    }
}

#[test]
fn test_a() {
    assert_eq!(to_fullwidth('a').unwrap(), 'ａ');
}

#[test]
fn nonstandard_width_examples() {
    assert!(!is_nonstandard_width('カ'));
    assert!(is_nonstandard_width('ｶ'));
}

#[test]
fn nonstandard_width_bounds() {
    assert!(!is_nonstandard_width('\u{feff}'));
    assert!(is_nonstandard_width('\u{ff00}'));
    assert!(is_nonstandard_width('\u{ffee}'));
    assert!(!is_nonstandard_width('\u{ffef}'));
    assert!(!is_nonstandard_width('a'));
}

#[test]
fn nonstandard_width_is_the_block_range() {
    for ch in all_chars() {
        let c = ch as u32;
        assert_eq!(is_nonstandard_width(ch), (0xff00..=0xffee).contains(&c));
    }
}

#[test]
fn standard_width_examples() {
    assert_eq!(to_standard_width('ｶ'), Some('カ'));
    assert_eq!(to_standard_width('ａ'), Some('a'));
    assert_eq!(to_standard_width('カ'), None);
}

#[test]
fn halfwidth_examples() {
    assert_eq!(to_halfwidth('カ'), Some('ｶ'));
    assert_eq!(to_halfwidth('a'), None);
}

#[test]
fn fullwidth_examples() {
    assert_eq!(to_fullwidth('a'), Some('ａ'));
    assert_eq!(to_fullwidth('カ'), None);
}

#[test]
fn gaps_have_no_form() {
    for c in [0xffbfu32, 0xffc8, 0xffd0, 0xffd8, 0xffe7, 0xffef] {
        let ch = char::from_u32(c).unwrap();
        assert_eq!(to_halfwidth(ch), None);
        assert_eq!(to_fullwidth(ch), None);
        assert_eq!(to_standard_width(ch), None);
    }
    assert!(!is_nonstandard_width('\u{ffef}'));
}

#[test]
fn round_trip_over_all_chars() {
    for ch in all_chars() {
        if let Some(h) = to_halfwidth(ch) {
            assert_eq!(to_fullwidth(h), Some(ch));
        }
        if let Some(w) = to_fullwidth(ch) {
            assert_eq!(to_halfwidth(w), Some(ch));
        }
    }
}

#[test]
fn directions_never_both_defined() {
    for ch in all_chars() {
        assert!(to_halfwidth(ch).is_none() || to_fullwidth(ch).is_none());
    }
}

#[test]
fn standard_width_follows_the_rows() {
    for ch in all_chars() {
        let c = ch as u32;
        let expected = match c {
            0xff01..=0xff60 | 0xffe0..=0xffe6 => to_halfwidth(ch),
            0xff61..=0xffdc | 0xffe8..=0xffee => to_fullwidth(ch),
            _ => None,
        };
        assert_eq!(to_standard_width(ch), expected);
    }
}

#[test]
fn standard_width_ignores_chars_outside_the_block() {
    assert_eq!(to_fullwidth('a'), Some('ａ'));
    assert_eq!(to_standard_width('a'), None);
    assert_eq!(to_halfwidth('カ'), Some('ｶ'));
    assert_eq!(to_standard_width('カ'), None);
    assert_eq!(to_standard_width('\u{ff00}'), None);
}

#[test]
fn ascii_row_edges() {
    assert_eq!(to_fullwidth('!'), Some('\u{ff01}'));
    assert_eq!(to_fullwidth('~'), Some('\u{ff5e}'));
    assert_eq!(to_fullwidth(' '), None);
    assert_eq!(to_halfwidth('\u{ff01}'), Some('!'));
    assert_eq!(to_halfwidth('\u{ff5e}'), Some('~'));
    assert_eq!(to_halfwidth('\u{ff00}'), None);
}

#[test]
fn white_parentheses() {
    assert_eq!(to_halfwidth('\u{ff5f}'), Some('\u{2985}'));
    assert_eq!(to_halfwidth('\u{ff60}'), Some('\u{2986}'));
    assert_eq!(to_fullwidth('\u{2985}'), Some('\u{ff5f}'));
    assert_eq!(to_standard_width('\u{ff60}'), Some('\u{2986}'));
}

#[test]
fn currency_and_symbol_row() {
    assert_eq!(to_standard_width('￠'), Some('¢'));
    assert_eq!(to_standard_width('￡'), Some('£'));
    assert_eq!(to_standard_width('￢'), Some('¬'));
    assert_eq!(to_standard_width('￣'), Some('¯'));
    assert_eq!(to_standard_width('￤'), Some('¦'));
    assert_eq!(to_standard_width('￥'), Some('¥'));
    assert_eq!(to_standard_width('￦'), Some('₩'));
    assert_eq!(to_fullwidth('₩'), Some('￦'));
    assert_eq!(to_fullwidth('¢'), Some('￠'));
}

#[test]
fn hangul_jamo_rows() {
    assert_eq!(to_standard_width('\u{ffa0}'), Some('\u{3164}'));
    assert_eq!(to_standard_width('\u{ffa1}'), Some('\u{3131}'));
    assert_eq!(to_standard_width('\u{ffbe}'), Some('\u{314e}'));
    assert_eq!(to_standard_width('\u{ffc2}'), Some('\u{314f}'));
    assert_eq!(to_standard_width('\u{ffcf}'), Some('\u{315a}'));
    assert_eq!(to_standard_width('\u{ffdc}'), Some('\u{3163}'));
    assert_eq!(to_halfwidth('\u{3164}'), Some('\u{ffa0}'));
    assert_eq!(to_halfwidth('\u{3163}'), Some('\u{ffdc}'));
    assert_eq!(to_standard_width('\u{ffdd}'), None);
}

#[test]
fn arrows_and_shapes() {
    assert_eq!(to_standard_width('\u{ffe8}'), Some('\u{2502}'));
    assert_eq!(to_standard_width('\u{ffe9}'), Some('←'));
    assert_eq!(to_standard_width('\u{ffec}'), Some('↓'));
    assert_eq!(to_standard_width('\u{ffed}'), Some('■'));
    assert_eq!(to_standard_width('\u{ffee}'), Some('○'));
    assert_eq!(to_halfwidth('○'), Some('\u{ffee}'));
}

#[test]
fn katakana_punctuation_and_sound_marks() {
    assert_eq!(to_halfwidth('。'), Some('｡'));
    assert_eq!(to_halfwidth('ー'), Some('ｰ'));
    assert_eq!(to_halfwidth('\u{3099}'), Some('\u{ff9e}'));
    assert_eq!(to_fullwidth('\u{ff9f}'), Some('\u{309a}'));
    assert_eq!(to_standard_width('ｧ'), Some('ァ'));
}

#[test]
fn counts_of_each_direction() {
    let halves = all_chars().filter(|&c| to_halfwidth(c).is_some()).count();
    let fulls = all_chars().filter(|&c| to_fullwidth(c).is_some()).count();
    assert_eq!(halves, 225);
    assert_eq!(fulls, 225);
}
