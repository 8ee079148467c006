//! Code-point model of the width correspondence: one relation between narrow
//! and wide characters, read in the halfwidth and in the fullwidth direction.
use vstd::prelude::*;

verus! {

/// The code point held by an optional character, if any.
pub open spec fn code_of(r: Option<char>) -> Option<int> {
    match r {
        Some(c) => Some(c as int),
        None => None,
    }
}

/// Whether the code point `c` lies in the Halfwidth and Fullwidth Forms block
/// as far as conversion is concerned: U+FF00 through U+FFEE.
pub open spec fn in_forms_block(c: int) -> bool {
    0xff00 <= c <= 0xffee
}

/// The code point of the halfwidth form of the code point `c`.
///
/// Two kinds of input have one: the fullwidth variants of the Forms block
/// (the ASCII row, the white parentheses, the currency and symbol row), and
/// the naturally wide characters outside it (CJK punctuation, katakana,
/// Hangul compatibility jamo, a box-drawing line, arrows and shapes) whose
/// narrow sibling lies in the block.
pub open spec fn halfwidth_code(c: int) -> Option<int> {
    if 0xff01 <= c <= 0xff5e {
        Some(c - 0xff01 + 0x0021)
    } else if 0xff5f <= c <= 0xff60 {
        Some(c - 0xff5f + 0x2985)
    } else if 0xffe0 <= c <= 0xffe1 {
        Some(c - 0xffe0 + 0x00a2)
    } else if 0x3131 <= c <= 0x314e {
        Some(c - 0x3131 + 0xffa1)
    } else if 0x314f <= c <= 0x3154 {
        Some(c - 0x314f + 0xffc2)
    } else if 0x3155 <= c <= 0x315a {
        Some(c - 0x3155 + 0xffca)
    } else if 0x315b <= c <= 0x3160 {
        Some(c - 0x315b + 0xffd2)
    } else if 0x3161 <= c <= 0x3163 {
        Some(c - 0x3161 + 0xffda)
    } else if 0x2190 <= c <= 0x2193 {
        Some(c - 0x2190 + 0xffe9)
    } else if 0 <= c <= 0xffff {
        halfwidth_single(c as u16)
    } else {
        None
    }
}

/// The code point of the fullwidth form of the code point `c`.
///
/// Two kinds of input have one: the halfwidth variants of the Forms block
/// (katakana and CJK punctuation, Hangul jamo, the box-drawing line, arrows
/// and shapes), and the naturally narrow characters outside it (printable
/// ASCII, the white parentheses, a few currency and symbol signs) whose wide
/// sibling lies in the block.
pub open spec fn fullwidth_code(c: int) -> Option<int> {
    if 0x0021 <= c <= 0x007e {
        Some(c - 0x0021 + 0xff01)
    } else if 0x2985 <= c <= 0x2986 {
        Some(c - 0x2985 + 0xff5f)
    } else if 0x00a2 <= c <= 0x00a3 {
        Some(c - 0x00a2 + 0xffe0)
    } else if 0xffa1 <= c <= 0xffbe {
        Some(c - 0xffa1 + 0x3131)
    } else if 0xffc2 <= c <= 0xffc7 {
        Some(c - 0xffc2 + 0x314f)
    } else if 0xffca <= c <= 0xffcf {
        Some(c - 0xffca + 0x3155)
    } else if 0xffd2 <= c <= 0xffd7 {
        Some(c - 0xffd2 + 0x315b)
    } else if 0xffda <= c <= 0xffdc {
        Some(c - 0xffda + 0x3161)
    } else if 0xffe9 <= c <= 0xffec {
        Some(c - 0xffe9 + 0x2190)
    } else if 0 <= c <= 0xffff {
        fullwidth_single(c as u16)
    } else {
        None
    }
}

/// The code point of the standard-width form of the code point `c`: the
/// direction is chosen by the row of the Forms block that `c` lies in, and
/// nothing outside those rows has one.
pub open spec fn standard_code(c: int) -> Option<int> {
    if 0xff01 <= c <= 0xff60 {
        halfwidth_code(c)
    } else if 0xff61 <= c <= 0xffdc {
        fullwidth_code(c)
    } else if 0xffe0 <= c <= 0xffe6 {
        halfwidth_code(c)
    } else if 0xffe8 <= c <= 0xffee {
        fullwidth_code(c)
    } else {
        None
    }
}

/// The single code points of the Basic Multilingual Plane with a halfwidth form
/// that no contiguous row of `halfwidth_code` covers.
pub open spec fn halfwidth_single(c: u16) -> Option<int> {
    match c {
        0xffe2 => Some(0x00ac),
        0xffe3 => Some(0x00af),
        0xffe4 => Some(0x00a6),
        0xffe5 => Some(0x00a5),
        0xffe6 => Some(0x20a9),
        0x3002 => Some(0xff61),
        0x300c => Some(0xff62),
        0x300d => Some(0xff63),
        0x3001 => Some(0xff64),
        0x30fb => Some(0xff65),
        0x30f2 => Some(0xff66),
        0x30a1 => Some(0xff67),
        0x30a3 => Some(0xff68),
        0x30a5 => Some(0xff69),
        0x30a7 => Some(0xff6a),
        0x30a9 => Some(0xff6b),
        0x30e3 => Some(0xff6c),
        0x30e5 => Some(0xff6d),
        0x30e7 => Some(0xff6e),
        0x30c3 => Some(0xff6f),
        0x30fc => Some(0xff70),
        0x30a2 => Some(0xff71),
        0x30a4 => Some(0xff72),
        0x30a6 => Some(0xff73),
        0x30a8 => Some(0xff74),
        0x30aa => Some(0xff75),
        0x30ab => Some(0xff76),
        0x30ad => Some(0xff77),
        0x30af => Some(0xff78),
        0x30b1 => Some(0xff79),
        0x30b3 => Some(0xff7a),
        0x30b5 => Some(0xff7b),
        0x30b7 => Some(0xff7c),
        0x30b9 => Some(0xff7d),
        0x30bb => Some(0xff7e),
        0x30bd => Some(0xff7f),
        0x30bf => Some(0xff80),
        0x30c1 => Some(0xff81),
        0x30c4 => Some(0xff82),
        0x30c6 => Some(0xff83),
        0x30c8 => Some(0xff84),
        0x30ca => Some(0xff85),
        0x30cb => Some(0xff86),
        0x30cc => Some(0xff87),
        0x30cd => Some(0xff88),
        0x30ce => Some(0xff89),
        0x30cf => Some(0xff8a),
        0x30d2 => Some(0xff8b),
        0x30d5 => Some(0xff8c),
        0x30d8 => Some(0xff8d),
        0x30db => Some(0xff8e),
        0x30de => Some(0xff8f),
        0x30df => Some(0xff90),
        0x30e0 => Some(0xff91),
        0x30e1 => Some(0xff92),
        0x30e2 => Some(0xff93),
        0x30e4 => Some(0xff94),
        0x30e6 => Some(0xff95),
        0x30e8 => Some(0xff96),
        0x30e9 => Some(0xff97),
        0x30ea => Some(0xff98),
        0x30eb => Some(0xff99),
        0x30ec => Some(0xff9a),
        0x30ed => Some(0xff9b),
        0x30ef => Some(0xff9c),
        0x30f3 => Some(0xff9d),
        0x3099 => Some(0xff9e),
        0x309a => Some(0xff9f),
        0x3164 => Some(0xffa0),
        0x2502 => Some(0xffe8),
        0x25a0 => Some(0xffed),
        0x25cb => Some(0xffee),
        _ => None,
    }
}

/// The single code points of the Basic Multilingual Plane with a fullwidth form
/// that no contiguous row of `fullwidth_code` covers.
pub open spec fn fullwidth_single(c: u16) -> Option<int> {
    match c {
        0x00ac => Some(0xffe2),
        0x00af => Some(0xffe3),
        0x00a6 => Some(0xffe4),
        0x00a5 => Some(0xffe5),
        0x20a9 => Some(0xffe6),
        0xff61 => Some(0x3002),
        0xff62 => Some(0x300c),
        0xff63 => Some(0x300d),
        0xff64 => Some(0x3001),
        0xff65 => Some(0x30fb),
        0xff66 => Some(0x30f2),
        0xff67 => Some(0x30a1),
        0xff68 => Some(0x30a3),
        0xff69 => Some(0x30a5),
        0xff6a => Some(0x30a7),
        0xff6b => Some(0x30a9),
        0xff6c => Some(0x30e3),
        0xff6d => Some(0x30e5),
        0xff6e => Some(0x30e7),
        0xff6f => Some(0x30c3),
        0xff70 => Some(0x30fc),
        0xff71 => Some(0x30a2),
        0xff72 => Some(0x30a4),
        0xff73 => Some(0x30a6),
        0xff74 => Some(0x30a8),
        0xff75 => Some(0x30aa),
        0xff76 => Some(0x30ab),
        0xff77 => Some(0x30ad),
        0xff78 => Some(0x30af),
        0xff79 => Some(0x30b1),
        0xff7a => Some(0x30b3),
        0xff7b => Some(0x30b5),
        0xff7c => Some(0x30b7),
        0xff7d => Some(0x30b9),
        0xff7e => Some(0x30bb),
        0xff7f => Some(0x30bd),
        0xff80 => Some(0x30bf),
        0xff81 => Some(0x30c1),
        0xff82 => Some(0x30c4),
        0xff83 => Some(0x30c6),
        0xff84 => Some(0x30c8),
        0xff85 => Some(0x30ca),
        0xff86 => Some(0x30cb),
        0xff87 => Some(0x30cc),
        0xff88 => Some(0x30cd),
        0xff89 => Some(0x30ce),
        0xff8a => Some(0x30cf),
        0xff8b => Some(0x30d2),
        0xff8c => Some(0x30d5),
        0xff8d => Some(0x30d8),
        0xff8e => Some(0x30db),
        0xff8f => Some(0x30de),
        0xff90 => Some(0x30df),
        0xff91 => Some(0x30e0),
        0xff92 => Some(0x30e1),
        0xff93 => Some(0x30e2),
        0xff94 => Some(0x30e4),
        0xff95 => Some(0x30e6),
        0xff96 => Some(0x30e8),
        0xff97 => Some(0x30e9),
        0xff98 => Some(0x30ea),
        0xff99 => Some(0x30eb),
        0xff9a => Some(0x30ec),
        0xff9b => Some(0x30ed),
        0xff9c => Some(0x30ef),
        0xff9d => Some(0x30f3),
        0xff9e => Some(0x3099),
        0xff9f => Some(0x309a),
        0xffa0 => Some(0x3164),
        0xffe8 => Some(0x2502),
        0xffed => Some(0x25a0),
        0xffee => Some(0x25cb),
        _ => None,
    }
}

} // verus!
