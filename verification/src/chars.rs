//! Character classes the engine cares about: Unicode whitespace (for blank-line
//! trimming), ASCII (for display-width estimation), decimal digits (for setting
//! strings), and the normalization used when reading configuration keywords.

use vstd::prelude::*;

verus! {

/// The Unicode `White_Space` code points, the set `str::trim` strips.
pub open spec fn is_space_char(c: char) -> bool {
    let u = c as u32;
    u == 0x20 || (0x09 <= u && u <= 0x0D) || u == 0x85 || u == 0xA0 || u == 0x1680 || (0x2000
        <= u && u <= 0x200A) || u == 0x2028 || u == 0x2029 || u == 0x202F || u == 0x205F || u
        == 0x3000
}

/// A line is blank when every character in it is whitespace.
pub open spec fn is_blank(s: Seq<char>) -> bool {
    forall|i: int| 0 <= i < s.len() ==> is_space_char(#[trigger] s[i])
}

/// Decide whether `c` is a Unicode whitespace character.
pub fn is_space(c: char) -> (r: bool)
    ensures
        r == is_space_char(c),
{
    let u = c as u32;
    u == 0x20 || (0x09 <= u && u <= 0x0D) || u == 0x85 || u == 0xA0 || u == 0x1680 || (0x2000
        <= u && u <= 0x200A) || u == 0x2028 || u == 0x2029 || u == 0x202F || u == 0x205F || u
        == 0x3000
}

/// An ASCII character occupies one display unit in the width estimate;
/// everything else counts as two.
pub open spec fn is_ascii_char(c: char) -> bool {
    c as u32 <= 0x7F
}

/// Decide whether `c` is ASCII.
pub fn char_is_ascii(c: char) -> (r: bool)
    ensures
        r == is_ascii_char(c),
{
    c as u32 <= 0x7F
}

/// The keyword normalization: ASCII uppercase folds to lowercase and `-`
/// becomes `_`, so that `Top` and `hud-scale` read like `top` and `hud_scale`.
pub open spec fn norm_char(c: char) -> char {
    let u = c as u32;
    if 0x41 <= u && u <= 0x5A {
        (u + 0x20) as char
    } else if c == '-' {
        '_'
    } else {
        c
    }
}

/// Normalize one keyword character.
pub fn normalize_char(c: char) -> (r: char)
    ensures
        r == norm_char(c),
{
    match c {
        'A' => 'a',
        'B' => 'b',
        'C' => 'c',
        'D' => 'd',
        'E' => 'e',
        'F' => 'f',
        'G' => 'g',
        'H' => 'h',
        'I' => 'i',
        'J' => 'j',
        'K' => 'k',
        'L' => 'l',
        'M' => 'm',
        'N' => 'n',
        'O' => 'o',
        'P' => 'p',
        'Q' => 'q',
        'R' => 'r',
        'S' => 's',
        'T' => 't',
        'U' => 'u',
        'V' => 'v',
        'W' => 'w',
        'X' => 'x',
        'Y' => 'y',
        'Z' => 'z',
        '-' => '_',
        _ => c,
    }
}

/// A decimal digit.
pub open spec fn is_digit_char(c: char) -> bool {
    0x30 <= c as u32 && c as u32 <= 0x39
}

/// Its numeric value.
pub open spec fn digit_value(c: char) -> int {
    c as u32 - 0x30
}

/// Decide whether `c` is a decimal digit.
pub fn char_is_digit(c: char) -> (r: bool)
    ensures
        r == is_digit_char(c),
{
    let u = c as u32;
    0x30 <= u && u <= 0x39
}

/// The numeric value of a digit character.
pub fn char_digit_value(c: char) -> (r: u32)
    requires
        is_digit_char(c),
    ensures
        r == digit_value(c),
{
    c as u32 - 0x30
}

} // verus!
