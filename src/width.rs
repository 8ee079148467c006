use vstd::prelude::*;

use crate::table::{code_of, fullwidth_code, halfwidth_code, in_forms_block, standard_code};

verus! {

/// Checks whether `ch` is in the Unicode "Halfwidth and Fullwidth Forms" block
/// (U+FF00 through U+FFEE; the unassigned U+FFEF is left out).
pub fn is_nonstandard_width(ch: char) -> (r: bool)
    ensures
        r == in_forms_block(ch as int),
{
    match ch as u32 {
        0xff00..=0xffee => true,
        _ => false,
    }
}

/// Returns the standard-width form of `ch`, or `None` where `ch` is not a
/// convertible character of the "Halfwidth and Fullwidth Forms" block.
///
/// Fullwidth variants and the currency and symbol row are narrowed, the
/// halfwidth katakana, jamo, arrows and shapes are widened.
pub fn to_standard_width(ch: char) -> (r: Option<char>)
    ensures
        code_of(r) == standard_code(ch as int),
{
    match ch as u32 {
        0xff01..=0xff60 => to_halfwidth(ch),
        0xff61..=0xffdc => to_fullwidth(ch),
        0xffe0..=0xffe6 => to_halfwidth(ch),
        0xffe8..=0xffee => to_fullwidth(ch),
        _ => None,
    }
}

/// Returns the halfwidth form of `ch`, or `None` where `ch` has none or is
/// already in halfwidth form.
pub fn to_halfwidth(ch: char) -> (r: Option<char>)
    ensures
        code_of(r) == halfwidth_code(ch as int),
{
    let c: u32 = ch as u32;
    match c {
        // Fullwidth variant characters
        0xff01..=0xff5e => Some(((c - 0xfee0) as u8) as char),
        0xff5f => Some('\u{2985}'),
        0xff60 => Some('\u{2986}'),
        0xffe0..=0xffe1 => Some(((c - 0xff3e) as u8) as char),
        0xffe2 => Some('\u{00ac}'),
        0xffe3 => Some('\u{00af}'),
        0xffe4 => Some('\u{00a6}'),
        0xffe5 => Some('\u{00a5}'),
        0xffe6 => Some('\u{20a9}'),
        // Naturally wide characters
        0x3002 => Some('\u{ff61}'),
        0x300c => Some('\u{ff62}'),
        0x300d => Some('\u{ff63}'),
        0x3001 => Some('\u{ff64}'),
        0x30fb => Some('\u{ff65}'),
        0x30f2 => Some('\u{ff66}'),
        0x30a1 => Some('\u{ff67}'),
        0x30a3 => Some('\u{ff68}'),
        0x30a5 => Some('\u{ff69}'),
        0x30a7 => Some('\u{ff6a}'),
        0x30a9 => Some('\u{ff6b}'),
        0x30e3 => Some('\u{ff6c}'),
        0x30e5 => Some('\u{ff6d}'),
        0x30e7 => Some('\u{ff6e}'),
        0x30c3 => Some('\u{ff6f}'),
        0x30fc => Some('\u{ff70}'),
        0x30a2 => Some('\u{ff71}'),
        0x30a4 => Some('\u{ff72}'),
        0x30a6 => Some('\u{ff73}'),
        0x30a8 => Some('\u{ff74}'),
        0x30aa => Some('\u{ff75}'),
        0x30ab => Some('\u{ff76}'),
        0x30ad => Some('\u{ff77}'),
        0x30af => Some('\u{ff78}'),
        0x30b1 => Some('\u{ff79}'),
        0x30b3 => Some('\u{ff7a}'),
        0x30b5 => Some('\u{ff7b}'),
        0x30b7 => Some('\u{ff7c}'),
        0x30b9 => Some('\u{ff7d}'),
        0x30bb => Some('\u{ff7e}'),
        0x30bd => Some('\u{ff7f}'),
        0x30bf => Some('\u{ff80}'),
        0x30c1 => Some('\u{ff81}'),
        0x30c4 => Some('\u{ff82}'),
        0x30c6 => Some('\u{ff83}'),
        0x30c8 => Some('\u{ff84}'),
        0x30ca => Some('\u{ff85}'),
        0x30cb => Some('\u{ff86}'),
        0x30cc => Some('\u{ff87}'),
        0x30cd => Some('\u{ff88}'),
        0x30ce => Some('\u{ff89}'),
        0x30cf => Some('\u{ff8a}'),
        0x30d2 => Some('\u{ff8b}'),
        0x30d5 => Some('\u{ff8c}'),
        0x30d8 => Some('\u{ff8d}'),
        0x30db => Some('\u{ff8e}'),
        0x30de => Some('\u{ff8f}'),
        0x30df => Some('\u{ff90}'),
        0x30e0 => Some('\u{ff91}'),
        0x30e1 => Some('\u{ff92}'),
        0x30e2 => Some('\u{ff93}'),
        0x30e4 => Some('\u{ff94}'),
        0x30e6 => Some('\u{ff95}'),
        0x30e8 => Some('\u{ff96}'),
        0x30e9 => Some('\u{ff97}'),
        0x30ea => Some('\u{ff98}'),
        0x30eb => Some('\u{ff99}'),
        0x30ec => Some('\u{ff9a}'),
        0x30ed => Some('\u{ff9b}'),
        0x30ef => Some('\u{ff9c}'),
        0x30f3 => Some('\u{ff9d}'),
        0x3099 => Some('\u{ff9e}'),
        0x309a => Some('\u{ff9f}'),
        0x3164 => Some('\u{ffa0}'),
        0x3131 => Some('\u{ffa1}'),
        0x3132 => Some('\u{ffa2}'),
        0x3133 => Some('\u{ffa3}'),
        0x3134 => Some('\u{ffa4}'),
        0x3135 => Some('\u{ffa5}'),
        0x3136 => Some('\u{ffa6}'),
        0x3137 => Some('\u{ffa7}'),
        0x3138 => Some('\u{ffa8}'),
        0x3139 => Some('\u{ffa9}'),
        0x313a => Some('\u{ffaa}'),
        0x313b => Some('\u{ffab}'),
        0x313c => Some('\u{ffac}'),
        0x313d => Some('\u{ffad}'),
        0x313e => Some('\u{ffae}'),
        0x313f => Some('\u{ffaf}'),
        0x3140 => Some('\u{ffb0}'),
        0x3141 => Some('\u{ffb1}'),
        0x3142 => Some('\u{ffb2}'),
        0x3143 => Some('\u{ffb3}'),
        0x3144 => Some('\u{ffb4}'),
        0x3145 => Some('\u{ffb5}'),
        0x3146 => Some('\u{ffb6}'),
        0x3147 => Some('\u{ffb7}'),
        0x3148 => Some('\u{ffb8}'),
        0x3149 => Some('\u{ffb9}'),
        0x314a => Some('\u{ffba}'),
        0x314b => Some('\u{ffbb}'),
        0x314c => Some('\u{ffbc}'),
        0x314d => Some('\u{ffbd}'),
        0x314e => Some('\u{ffbe}'),
        0x314f => Some('\u{ffc2}'),
        0x3150 => Some('\u{ffc3}'),
        0x3151 => Some('\u{ffc4}'),
        0x3152 => Some('\u{ffc5}'),
        0x3153 => Some('\u{ffc6}'),
        0x3154 => Some('\u{ffc7}'),
        0x3155 => Some('\u{ffca}'),
        0x3156 => Some('\u{ffcb}'),
        0x3157 => Some('\u{ffcc}'),
        0x3158 => Some('\u{ffcd}'),
        0x3159 => Some('\u{ffce}'),
        0x315a => Some('\u{ffcf}'),
        0x315b => Some('\u{ffd2}'),
        0x315c => Some('\u{ffd3}'),
        0x315d => Some('\u{ffd4}'),
        0x315e => Some('\u{ffd5}'),
        0x315f => Some('\u{ffd6}'),
        0x3160 => Some('\u{ffd7}'),
        0x3161 => Some('\u{ffda}'),
        0x3162 => Some('\u{ffdb}'),
        0x3163 => Some('\u{ffdc}'),
        0x2502 => Some('\u{ffe8}'),
        0x2190 => Some('\u{ffe9}'),
        0x2191 => Some('\u{ffea}'),
        0x2192 => Some('\u{ffeb}'),
        0x2193 => Some('\u{ffec}'),
        0x25a0 => Some('\u{ffed}'),
        0x25cb => Some('\u{ffee}'),
        _ => None,
    }
}

/// Returns the fullwidth form of `ch`, or `None` where `ch` has none or is
/// already in fullwidth form.
pub fn to_fullwidth(ch: char) -> (r: Option<char>)
    ensures
        code_of(r) == fullwidth_code(ch as int),
{
    let c: u32 = ch as u32;
    match c {
        // Halfwidth variant characters
        0xff61 => Some('\u{3002}'),
        0xff62 => Some('\u{300c}'),
        0xff63 => Some('\u{300d}'),
        0xff64 => Some('\u{3001}'),
        0xff65 => Some('\u{30fb}'),
        0xff66 => Some('\u{30f2}'),
        0xff67 => Some('\u{30a1}'),
        0xff68 => Some('\u{30a3}'),
        0xff69 => Some('\u{30a5}'),
        0xff6a => Some('\u{30a7}'),
        0xff6b => Some('\u{30a9}'),
        0xff6c => Some('\u{30e3}'),
        0xff6d => Some('\u{30e5}'),
        0xff6e => Some('\u{30e7}'),
        0xff6f => Some('\u{30c3}'),
        0xff70 => Some('\u{30fc}'),
        0xff71 => Some('\u{30a2}'),
        0xff72 => Some('\u{30a4}'),
        0xff73 => Some('\u{30a6}'),
        0xff74 => Some('\u{30a8}'),
        0xff75 => Some('\u{30aa}'),
        0xff76 => Some('\u{30ab}'),
        0xff77 => Some('\u{30ad}'),
        0xff78 => Some('\u{30af}'),
        0xff79 => Some('\u{30b1}'),
        0xff7a => Some('\u{30b3}'),
        0xff7b => Some('\u{30b5}'),
        0xff7c => Some('\u{30b7}'),
        0xff7d => Some('\u{30b9}'),
        0xff7e => Some('\u{30bb}'),
        0xff7f => Some('\u{30bd}'),
        0xff80 => Some('\u{30bf}'),
        0xff81 => Some('\u{30c1}'),
        0xff82 => Some('\u{30c4}'),
        0xff83 => Some('\u{30c6}'),
        0xff84 => Some('\u{30c8}'),
        0xff85 => Some('\u{30ca}'),
        0xff86 => Some('\u{30cb}'),
        0xff87 => Some('\u{30cc}'),
        0xff88 => Some('\u{30cd}'),
        0xff89 => Some('\u{30ce}'),
        0xff8a => Some('\u{30cf}'),
        0xff8b => Some('\u{30d2}'),
        0xff8c => Some('\u{30d5}'),
        0xff8d => Some('\u{30d8}'),
        0xff8e => Some('\u{30db}'),
        0xff8f => Some('\u{30de}'),
        0xff90 => Some('\u{30df}'),
        0xff91 => Some('\u{30e0}'),
        0xff92 => Some('\u{30e1}'),
        0xff93 => Some('\u{30e2}'),
        0xff94 => Some('\u{30e4}'),
        0xff95 => Some('\u{30e6}'),
        0xff96 => Some('\u{30e8}'),
        0xff97 => Some('\u{30e9}'),
        0xff98 => Some('\u{30ea}'),
        0xff99 => Some('\u{30eb}'),
        0xff9a => Some('\u{30ec}'),
        0xff9b => Some('\u{30ed}'),
        0xff9c => Some('\u{30ef}'),
        0xff9d => Some('\u{30f3}'),
        0xff9e => Some('\u{3099}'),
        0xff9f => Some('\u{309a}'),
        0xffa0 => Some('\u{3164}'),
        0xffa1 => Some('\u{3131}'),
        0xffa2 => Some('\u{3132}'),
        0xffa3 => Some('\u{3133}'),
        0xffa4 => Some('\u{3134}'),
        0xffa5 => Some('\u{3135}'),
        0xffa6 => Some('\u{3136}'),
        0xffa7 => Some('\u{3137}'),
        0xffa8 => Some('\u{3138}'),
        0xffa9 => Some('\u{3139}'),
        0xffaa => Some('\u{313a}'),
        0xffab => Some('\u{313b}'),
        0xffac => Some('\u{313c}'),
        0xffad => Some('\u{313d}'),
        0xffae => Some('\u{313e}'),
        0xffaf => Some('\u{313f}'),
        0xffb0 => Some('\u{3140}'),
        0xffb1 => Some('\u{3141}'),
        0xffb2 => Some('\u{3142}'),
        0xffb3 => Some('\u{3143}'),
        0xffb4 => Some('\u{3144}'),
        0xffb5 => Some('\u{3145}'),
        0xffb6 => Some('\u{3146}'),
        0xffb7 => Some('\u{3147}'),
        0xffb8 => Some('\u{3148}'),
        0xffb9 => Some('\u{3149}'),
        0xffba => Some('\u{314a}'),
        0xffbb => Some('\u{314b}'),
        0xffbc => Some('\u{314c}'),
        0xffbd => Some('\u{314d}'),
        0xffbe => Some('\u{314e}'),
        0xffc2 => Some('\u{314f}'),
        0xffc3 => Some('\u{3150}'),
        0xffc4 => Some('\u{3151}'),
        0xffc5 => Some('\u{3152}'),
        0xffc6 => Some('\u{3153}'),
        0xffc7 => Some('\u{3154}'),
        0xffca => Some('\u{3155}'),
        0xffcb => Some('\u{3156}'),
        0xffcc => Some('\u{3157}'),
        0xffcd => Some('\u{3158}'),
        0xffce => Some('\u{3159}'),
        0xffcf => Some('\u{315a}'),
        0xffd2 => Some('\u{315b}'),
        0xffd3 => Some('\u{315c}'),
        0xffd4 => Some('\u{315d}'),
        0xffd5 => Some('\u{315e}'),
        0xffd6 => Some('\u{315f}'),
        0xffd7 => Some('\u{3160}'),
        0xffda => Some('\u{3161}'),
        0xffdb => Some('\u{3162}'),
        0xffdc => Some('\u{3163}'),
        0xffe8 => Some('\u{2502}'),
        0xffe9 => Some('\u{2190}'),
        0xffea => Some('\u{2191}'),
        0xffeb => Some('\u{2192}'),
        0xffec => Some('\u{2193}'),
        0xffed => Some('\u{25a0}'),
        0xffee => Some('\u{25cb}'),
        // Naturally narrow characters
        0x0021 => Some('\u{ff01}'),
        0x0022 => Some('\u{ff02}'),
        0x0023 => Some('\u{ff03}'),
        0x0024 => Some('\u{ff04}'),
        0x0025 => Some('\u{ff05}'),
        0x0026 => Some('\u{ff06}'),
        0x0027 => Some('\u{ff07}'),
        0x0028 => Some('\u{ff08}'),
        0x0029 => Some('\u{ff09}'),
        0x002a => Some('\u{ff0a}'),
        0x002b => Some('\u{ff0b}'),
        0x002c => Some('\u{ff0c}'),
        0x002d => Some('\u{ff0d}'),
        0x002e => Some('\u{ff0e}'),
        0x002f => Some('\u{ff0f}'),
        0x0030 => Some('\u{ff10}'),
        0x0031 => Some('\u{ff11}'),
        0x0032 => Some('\u{ff12}'),
        0x0033 => Some('\u{ff13}'),
        0x0034 => Some('\u{ff14}'),
        0x0035 => Some('\u{ff15}'),
        0x0036 => Some('\u{ff16}'),
        0x0037 => Some('\u{ff17}'),
        0x0038 => Some('\u{ff18}'),
        0x0039 => Some('\u{ff19}'),
        0x003a => Some('\u{ff1a}'),
        0x003b => Some('\u{ff1b}'),
        0x003c => Some('\u{ff1c}'),
        0x003d => Some('\u{ff1d}'),
        0x003e => Some('\u{ff1e}'),
        0x003f => Some('\u{ff1f}'),
        0x0040 => Some('\u{ff20}'),
        0x0041 => Some('\u{ff21}'),
        0x0042 => Some('\u{ff22}'),
        0x0043 => Some('\u{ff23}'),
        0x0044 => Some('\u{ff24}'),
        0x0045 => Some('\u{ff25}'),
        0x0046 => Some('\u{ff26}'),
        0x0047 => Some('\u{ff27}'),
        0x0048 => Some('\u{ff28}'),
        0x0049 => Some('\u{ff29}'),
        0x004a => Some('\u{ff2a}'),
        0x004b => Some('\u{ff2b}'),
        0x004c => Some('\u{ff2c}'),
        0x004d => Some('\u{ff2d}'),
        0x004e => Some('\u{ff2e}'),
        0x004f => Some('\u{ff2f}'),
        0x0050 => Some('\u{ff30}'),
        0x0051 => Some('\u{ff31}'),
        0x0052 => Some('\u{ff32}'),
        0x0053 => Some('\u{ff33}'),
        0x0054 => Some('\u{ff34}'),
        0x0055 => Some('\u{ff35}'),
        0x0056 => Some('\u{ff36}'),
        0x0057 => Some('\u{ff37}'),
        0x0058 => Some('\u{ff38}'),
        0x0059 => Some('\u{ff39}'),
        0x005a => Some('\u{ff3a}'),
        0x005b => Some('\u{ff3b}'),
        0x005c => Some('\u{ff3c}'),
        0x005d => Some('\u{ff3d}'),
        0x005e => Some('\u{ff3e}'),
        0x005f => Some('\u{ff3f}'),
        0x0060 => Some('\u{ff40}'),
        0x0061 => Some('\u{ff41}'),
        0x0062 => Some('\u{ff42}'),
        0x0063 => Some('\u{ff43}'),
        0x0064 => Some('\u{ff44}'),
        0x0065 => Some('\u{ff45}'),
        0x0066 => Some('\u{ff46}'),
        0x0067 => Some('\u{ff47}'),
        0x0068 => Some('\u{ff48}'),
        0x0069 => Some('\u{ff49}'),
        0x006a => Some('\u{ff4a}'),
        0x006b => Some('\u{ff4b}'),
        0x006c => Some('\u{ff4c}'),
        0x006d => Some('\u{ff4d}'),
        0x006e => Some('\u{ff4e}'),
        0x006f => Some('\u{ff4f}'),
        0x0070 => Some('\u{ff50}'),
        0x0071 => Some('\u{ff51}'),
        0x0072 => Some('\u{ff52}'),
        0x0073 => Some('\u{ff53}'),
        0x0074 => Some('\u{ff54}'),
        0x0075 => Some('\u{ff55}'),
        0x0076 => Some('\u{ff56}'),
        0x0077 => Some('\u{ff57}'),
        0x0078 => Some('\u{ff58}'),
        0x0079 => Some('\u{ff59}'),
        0x007a => Some('\u{ff5a}'),
        0x007b => Some('\u{ff5b}'),
        0x007c => Some('\u{ff5c}'),
        0x007d => Some('\u{ff5d}'),
        0x007e => Some('\u{ff5e}'),
        0x2985 => Some('\u{ff5f}'),
        0x2986 => Some('\u{ff60}'),
        0x00a2 => Some('\u{ffe0}'),
        0x00a3 => Some('\u{ffe1}'),
        0x00ac => Some('\u{ffe2}'),
        0x00af => Some('\u{ffe3}'),
        0x00a6 => Some('\u{ffe4}'),
        0x00a5 => Some('\u{ffe5}'),
        0x20a9 => Some('\u{ffe6}'),
        _ => None,
    }
}

} // verus!
