//! CSS-style color strings and their parser.
//!
//! A style descriptor given as a string must be parsed into an RGBA value
//! before a fill or stroke is submitted to the backend; an unparsable string
//! is an error, never silently replaced by a default color. The parser
//! recognizes a set of named colors, `#rrggbb` and `#rrggbbaa` hex forms,
//! and the functional forms `rgb(r,g,b)` and `rgba(r,g,b,a)` with numeric
//! components in canonical form (decimal, no surrounding whitespace; the
//! alpha component has at most one integer digit and at most six fraction
//! digits).

use vstd::prelude::*;

use crate::error::CanvasError;
use crate::strutil::str_eq;

verus! {

/// A color with 8-bit channels and straight (non-premultiplied) alpha.
#[derive(Clone, Copy, Debug, PartialEq, Eq, Structural)]
pub struct Rgba {
    pub r: u8,
    pub g: u8,
    pub b: u8,
    pub a: u8,
}

/// The opaque color with the given channels.
pub open spec fn opaque(r: u8, g: u8, b: u8) -> Rgba {
    Rgba { r, g, b, a: 255 }
}

/// The color a recognized name stands for.
pub open spec fn named_color(s: Seq<char>) -> Option<Rgba> {
    if s == "black"@ {
        Some(opaque(0, 0, 0))
    } else if s == "white"@ {
        Some(opaque(255, 255, 255))
    } else if s == "red"@ {
        Some(opaque(255, 0, 0))
    } else if s == "lime"@ {
        Some(opaque(0, 255, 0))
    } else if s == "blue"@ {
        Some(opaque(0, 0, 255))
    } else if s == "green"@ {
        Some(opaque(0, 128, 0))
    } else if s == "yellow"@ {
        Some(opaque(255, 255, 0))
    } else if s == "cyan"@ || s == "aqua"@ {
        Some(opaque(0, 255, 255))
    } else if s == "magenta"@ || s == "fuchsia"@ {
        Some(opaque(255, 0, 255))
    } else if s == "gray"@ || s == "grey"@ {
        Some(opaque(128, 128, 128))
    } else if s == "silver"@ {
        Some(opaque(192, 192, 192))
    } else if s == "maroon"@ {
        Some(opaque(128, 0, 0))
    } else if s == "olive"@ {
        Some(opaque(128, 128, 0))
    } else if s == "navy"@ {
        Some(opaque(0, 0, 128))
    } else if s == "teal"@ {
        Some(opaque(0, 128, 128))
    } else if s == "purple"@ {
        Some(opaque(128, 0, 128))
    } else if s == "orange"@ {
        Some(opaque(255, 165, 0))
    } else if s == "transparent"@ {
        Some(Rgba { r: 0, g: 0, b: 0, a: 0 })
    } else {
        None
    }
}

/// The value of a decimal digit, if the character is one.
pub open spec fn digit_val(c: char) -> Option<u8> {
    let u = c as u32;
    if 48 <= u <= 57 {
        Some((u - 48) as u8)
    } else {
        None
    }
}

/// The value of a hexadecimal digit, if the character is one.
pub open spec fn hex_val(c: char) -> Option<u8> {
    let u = c as u32;
    if 48 <= u <= 57 {
        Some((u - 48) as u8)
    } else if 97 <= u <= 102 {
        Some((u - 87) as u8)
    } else if 65 <= u <= 70 {
        Some((u - 55) as u8)
    } else {
        None
    }
}

/// The byte written as two hexadecimal digits at position `i`.
pub open spec fn hex_byte(s: Seq<char>, i: int) -> Option<u8> {
    if 0 <= i && i + 2 <= s.len() {
        match (hex_val(s[i]), hex_val(s[i + 1])) {
            (Some(h), Some(l)) => Some((16 * h + l) as u8),
            _ => None,
        }
    } else {
        None
    }
}

/// The color written as `#rrggbb` or `#rrggbbaa`. The leading `#` is the
/// caller's to check.
pub open spec fn hex_color(s: Seq<char>) -> Option<Rgba> {
    if s.len() == 7 {
        match (hex_byte(s, 1), hex_byte(s, 3), hex_byte(s, 5)) {
            (Some(r), Some(g), Some(b)) => Some(opaque(r, g, b)),
            _ => None,
        }
    } else if s.len() == 9 {
        match (hex_byte(s, 1), hex_byte(s, 3), hex_byte(s, 5), hex_byte(s, 7)) {
            (Some(r), Some(g), Some(b), Some(a)) => Some(Rgba { r, g, b, a }),
            _ => None,
        }
    } else {
        None
    }
}

/// The position just past the run of decimal digits starting at `i`.
pub open spec fn digits_end(s: Seq<char>, i: int) -> int
    decreases s.len() - i,
{
    if 0 <= i < s.len() && digit_val(s[i]) is Some {
        digits_end(s, i + 1)
    } else {
        i
    }
}

/// The value of the digits `s[i..j]`, most significant first.
pub open spec fn digits_val(s: Seq<char>, i: int, j: int) -> int
    decreases j - i,
{
    if i < j {
        digits_val(s, i, j - 1) * 10 + (s[j - 1] as u32 - 48)
    } else {
        0
    }
}

/// Ten to the `k`th power.
pub open spec fn pow10(k: int) -> int
    decreases k,
{
    if k <= 0 {
        1
    } else {
        10 * pow10(k - 1)
    }
}

/// The run of digits starting at `i` stays within the string, covers only
/// digits, and ends at a non-digit.
pub proof fn lemma_digits_end(s: Seq<char>, i: int)
    requires
        0 <= i <= s.len(),
    ensures
        i <= digits_end(s, i) <= s.len(),
        forall|k: int| i <= k < digits_end(s, i) ==> digit_val(s[k]) is Some,
        digits_end(s, i) < s.len() ==> digit_val(s[digits_end(s, i)]) is None,
    decreases s.len() - i,
{
    if i < s.len() && digit_val(s[i]) is Some {
        lemma_digits_end(s, i + 1);
    }
}

/// A run of at most `n` digits has a value below ten to the `n`th power.
pub proof fn lemma_digits_val_bound(s: Seq<char>, i: int, j: int)
    requires
        i <= j,
        forall|k: int| i <= k < j ==> digit_val(s[k]) is Some,
    ensures
        0 <= digits_val(s, i, j) < pow10(j - i),
    decreases j - i,
{
    if i < j {
        lemma_digits_val_bound(s, i, j - 1);
        assert(digit_val(s[j - 1]) is Some);
        assert(digits_val(s, i, j - 1) * 10 + (s[j - 1] as u32 - 48) < pow10(j - i)) by (nonlinear_arith)
            requires
                0 <= digits_val(s, i, j - 1) < pow10(j - i - 1),
                0 <= s[j - 1] as u32 - 48 <= 9,
                pow10(j - i) == 10 * pow10(j - i - 1),
        ;
    }
}

/// A color component of the `rgb(...)` form: one to three digits starting
/// at `i`, ending exactly at `j`, with a value of at most 255.
pub open spec fn component_at(s: Seq<char>, i: int, j: int) -> Option<u8> {
    if digits_end(s, i) == j && i < j && j - i <= 3 && digits_val(s, i, j) <= 255 {
        Some(digits_val(s, i, j) as u8)
    } else {
        None
    }
}

/// The alpha component of the `rgba(...)` form, written over `s[i..j]` as
/// up to one integer digit, an optional point, and up to six fraction
/// digits, at least one digit in all, with a value in `[0, 1]`; the result
/// is the value scaled to `[0, 255]` and rounded to the nearest step.
pub open spec fn alpha_at(s: Seq<char>, i: int, j: int) -> Option<u8> {
    let e = digits_end(s, i);
    if e == j {
        if i < j && j - i <= 1 && digits_val(s, i, j) <= 1 {
            Some((digits_val(s, i, j) * 255) as u8)
        } else {
            None
        }
    } else if i <= e < j && e - i <= 1 && s[e] == '.' && digits_end(s, e + 1) == j {
        let k = j - (e + 1);
        if (e > i || k > 0) && k <= 6 {
            let den = pow10(k);
            let num = digits_val(s, i, e) * den + digits_val(s, e + 1, j);
            if num <= den {
                Some(((num * 255 + den / 2) / den) as u8)
            } else {
                None
            }
        } else {
            None
        }
    } else {
        None
    }
}

/// Whether `s` starts with `rgb(`.
pub open spec fn has_rgb_prefix(s: Seq<char>) -> bool {
    s.len() >= 4 && s[0] == 'r' && s[1] == 'g' && s[2] == 'b' && s[3] == '('
}

/// Whether `s` starts with `rgba(`.
pub open spec fn has_rgba_prefix(s: Seq<char>) -> bool {
    s.len() >= 5 && s[0] == 'r' && s[1] == 'g' && s[2] == 'b' && s[3] == 'a' && s[4] == '('
}

/// The color written as `rgb(r,g,b)`. The prefix is the caller's to check.
pub open spec fn rgb_color(s: Seq<char>) -> Option<Rgba> {
    let e1 = digits_end(s, 4);
    let e2 = digits_end(s, e1 + 1);
    let e3 = digits_end(s, e2 + 1);
    if e1 < s.len() && s[e1] == ',' && e2 < s.len() && s[e2] == ',' && e3 + 1 == s.len() && s[e3]
        == ')' {
        match (component_at(s, 4, e1), component_at(s, e1 + 1, e2), component_at(s, e2 + 1, e3)) {
            (Some(r), Some(g), Some(b)) => Some(opaque(r, g, b)),
            _ => None,
        }
    } else {
        None
    }
}

/// The color written as `rgba(r,g,b,a)`. The prefix is the caller's to
/// check.
pub open spec fn rgba_color(s: Seq<char>) -> Option<Rgba> {
    let e1 = digits_end(s, 5);
    let e2 = digits_end(s, e1 + 1);
    let e3 = digits_end(s, e2 + 1);
    if e1 < s.len() && s[e1] == ',' && e2 < s.len() && s[e2] == ',' && e3 < s.len() && s[e3] == ','
        && s.len() > 0 && s[s.len() - 1] == ')' {
        match (
            component_at(s, 5, e1),
            component_at(s, e1 + 1, e2),
            component_at(s, e2 + 1, e3),
            alpha_at(s, e3 + 1, s.len() - 1),
        ) {
            (Some(r), Some(g), Some(b), Some(a)) => Some(Rgba { r, g, b, a }),
            _ => None,
        }
    } else {
        None
    }
}

/// What a color string denotes: a named color, a hex form, or a functional
/// `rgb`/`rgba` form; `None` for everything else.
pub open spec fn parse_color(s: Seq<char>) -> Option<Rgba> {
    if named_color(s) is Some {
        named_color(s)
    } else if s.len() > 0 && s[0] == '#' {
        hex_color(s)
    } else if has_rgba_prefix(s) {
        rgba_color(s)
    } else if has_rgb_prefix(s) {
        rgb_color(s)
    } else {
        None
    }
}

/// Powers of ten are positive.
proof fn lemma_pow10_pos(k: int)
    ensures
        pow10(k) >= 1,
    decreases k,
{
    if k > 0 {
        lemma_pow10_pos(k - 1);
    }
}

/// Powers of ten grow with the exponent.
proof fn lemma_pow10_mono(a: int, b: int)
    requires
        0 <= a <= b,
    ensures
        1 <= pow10(a) <= pow10(b),
    decreases b,
{
    lemma_pow10_pos(a);
    if a < b {
        lemma_pow10_mono(a, b - 1);
        lemma_pow10_pos(b - 1);
    }
}

/// Looks a color name up.
fn named_color_of(s: &str) -> (r: Option<Rgba>)
    ensures
        r == named_color(s@),
{
    if str_eq(s, "black") {
        Some(Rgba { r: 0, g: 0, b: 0, a: 255 })
    } else if str_eq(s, "white") {
        Some(Rgba { r: 255, g: 255, b: 255, a: 255 })
    } else if str_eq(s, "red") {
        Some(Rgba { r: 255, g: 0, b: 0, a: 255 })
    } else if str_eq(s, "lime") {
        Some(Rgba { r: 0, g: 255, b: 0, a: 255 })
    } else if str_eq(s, "blue") {
        Some(Rgba { r: 0, g: 0, b: 255, a: 255 })
    } else if str_eq(s, "green") {
        Some(Rgba { r: 0, g: 128, b: 0, a: 255 })
    } else if str_eq(s, "yellow") {
        Some(Rgba { r: 255, g: 255, b: 0, a: 255 })
    } else if str_eq(s, "cyan") || str_eq(s, "aqua") {
        Some(Rgba { r: 0, g: 255, b: 255, a: 255 })
    } else if str_eq(s, "magenta") || str_eq(s, "fuchsia") {
        Some(Rgba { r: 255, g: 0, b: 255, a: 255 })
    } else if str_eq(s, "gray") || str_eq(s, "grey") {
        Some(Rgba { r: 128, g: 128, b: 128, a: 255 })
    } else if str_eq(s, "silver") {
        Some(Rgba { r: 192, g: 192, b: 192, a: 255 })
    } else if str_eq(s, "maroon") {
        Some(Rgba { r: 128, g: 0, b: 0, a: 255 })
    } else if str_eq(s, "olive") {
        Some(Rgba { r: 128, g: 128, b: 0, a: 255 })
    } else if str_eq(s, "navy") {
        Some(Rgba { r: 0, g: 0, b: 128, a: 255 })
    } else if str_eq(s, "teal") {
        Some(Rgba { r: 0, g: 128, b: 128, a: 255 })
    } else if str_eq(s, "purple") {
        Some(Rgba { r: 128, g: 0, b: 128, a: 255 })
    } else if str_eq(s, "orange") {
        Some(Rgba { r: 255, g: 165, b: 0, a: 255 })
    } else if str_eq(s, "transparent") {
        Some(Rgba { r: 0, g: 0, b: 0, a: 0 })
    } else {
        None
    }
}

/// Reads a hexadecimal digit.
fn hex_digit(c: char) -> (r: Option<u8>)
    ensures
        r == hex_val(c),
{
    let u = c as u32;
    if 48 <= u && u <= 57 {
        Some((u - 48) as u8)
    } else if 97 <= u && u <= 102 {
        Some((u - 87) as u8)
    } else if 65 <= u && u <= 70 {
        Some((u - 55) as u8)
    } else {
        None
    }
}

/// Reads the byte written as two hexadecimal digits at position `i`.
fn hex_byte_at(s: &str, i: usize) -> (r: Option<u8>)
    requires
        i + 2 <= s@.len() <= usize::MAX,
    ensures
        r == hex_byte(s@, i as int),
{
    let h = hex_digit(s.get_char(i));
    let l = hex_digit(s.get_char(i + 1));
    match (h, l) {
        (Some(hv), Some(lv)) => Some(16 * hv + lv),
        _ => None,
    }
}

/// Finds the end of the run of decimal digits starting at `i`.
fn scan_digits(s: &str, i: usize) -> (e: usize)
    requires
        i <= s@.len(),
    ensures
        e == digits_end(s@, i as int),
        i <= e <= s@.len(),
{
    let n = s.unicode_len();
    let mut cur = i;
    loop
        invariant
            i <= cur <= n,
            n == s@.len(),
            digits_end(s@, i as int) == digits_end(s@, cur as int),
        ensures
            i <= cur <= n,
            digits_end(s@, i as int) == cur,
        decreases n - cur,
    {
        if cur >= n {
            proof {
                assert(digits_end(s@, cur as int) == cur);
            }
            break ;
        }
        let u = s.get_char(cur) as u32;
        if u < 48 || u > 57 {
            proof {
                assert(digit_val(s@[cur as int]) is None);
                assert(digits_end(s@, cur as int) == cur);
            }
            break ;
        }
        proof {
            assert(digit_val(s@[cur as int]) is Some);
            assert(digits_end(s@, cur as int) == digits_end(s@, cur + 1 as int));
        }
        cur += 1;
    }
    proof {
        lemma_digits_end(s@, i as int);
    }
    cur
}

/// Reads the value of the digits `s[i..e]`.
fn digits_value(s: &str, i: usize, e: usize) -> (v: u32)
    requires
        i <= e <= s@.len(),
        e - i <= 7,
        forall|k: int| i <= k < e ==> digit_val(s@[k]) is Some,
    ensures
        v == digits_val(s@, i as int, e as int),
{
    let mut v: u32 = 0;
    let mut j = i;
    while j < e
        invariant
            i <= j <= e <= s@.len(),
            e - i <= 7,
            forall|k: int| i <= k < e ==> digit_val(s@[k]) is Some,
            v == digits_val(s@, i as int, j as int),
        decreases e - j,
    {
        proof {
            lemma_digits_val_bound(s@, i as int, j as int);
            lemma_pow10_mono(j - i, 6);
            reveal_with_fuel(pow10, 8);
        }
        let u = s.get_char(j) as u32;
        v = v * 10 + (u - 48);
        j += 1;
    }
    v
}

/// Reads a color component of the `rgb(...)` form whose digits end at `e`.
fn component_value(s: &str, i: usize, e: usize) -> (r: Option<u8>)
    requires
        i <= e <= s@.len(),
        digits_end(s@, i as int) == e,
    ensures
        r == component_at(s@, i as int, e as int),
{
    proof {
        lemma_digits_end(s@, i as int);
    }
    if e == i || e - i > 3 {
        return None;
    }
    let v = digits_value(s, i, e);
    if v > 255 {
        None
    } else {
        Some(v as u8)
    }
}

/// Ten to the `k`th power, for small `k`.
fn pow10_small(k: usize) -> (r: u32)
    requires
        k <= 6,
    ensures
        r == pow10(k as int),
{
    proof {
        reveal_with_fuel(pow10, 8);
    }
    if k == 0 {
        1
    } else if k == 1 {
        10
    } else if k == 2 {
        100
    } else if k == 3 {
        1_000
    } else if k == 4 {
        10_000
    } else if k == 5 {
        100_000
    } else {
        1_000_000
    }
}

/// Reads the alpha component written over `s[i..j]`, where `s[j]` is known
/// not to be a digit.
fn alpha_value(s: &str, i: usize, j: usize) -> (r: Option<u8>)
    requires
        i <= j < s@.len(),
        digit_val(s@[j as int]) is None,
    ensures
        r == alpha_at(s@, i as int, j as int),
{
    let e = scan_digits(s, i);
    proof {
        lemma_digits_end(s@, i as int);
        if e > j {
            assert(digit_val(s@[j as int]) is Some);
        }
    }
    if e == j {
        if i < j && j - i <= 1 {
            let v = digits_value(s, i, j);
            if v <= 1 {
                Some((v * 255) as u8)
            } else {
                None
            }
        } else {
            None
        }
    } else {
        if e - i > 1 {
            return None;
        }
        if s.get_char(e) != '.' {
            return None;
        }
        let f = scan_digits(s, e + 1);
        proof {
            lemma_digits_end(s@, e + 1 as int);
            if f > j {
                assert(digit_val(s@[j as int]) is Some);
            }
        }
        if f != j {
            return None;
        }
        let k = j - (e + 1);
        if !(e > i || k > 0) || k > 6 {
            return None;
        }
        let den = pow10_small(k);
        proof {
            reveal_with_fuel(pow10, 8);
            lemma_pow10_mono(k as int, 6);
        }
        let ipart = digits_value(s, i, e);
        let fpart = digits_value(s, e + 1, j);
        proof {
            lemma_digits_val_bound(s@, i as int, e as int);
            lemma_digits_val_bound(s@, e + 1 as int, j as int);
            lemma_pow10_mono(e - i, 1);
            lemma_pow10_mono(k as int, 6);
            reveal_with_fuel(pow10, 8);
            assert(ipart * den <= 9_000_000) by (nonlinear_arith)
                requires
                    0 <= ipart <= 9,
                    0 <= den <= 1_000_000,
            ;
        }
        let num = ipart * den + fpart;
        if num > den {
            return None;
        }
        proof {
            assert((num as int * 255 + den as int / 2) / (den as int) <= 255) by (nonlinear_arith)
                requires
                    1 <= den as int,
                    0 <= num as int <= den as int,
            ;
        }
        Some(((num * 255 + den / 2) / den) as u8)
    }
}

/// Parses a color string. Returns the color it denotes, or
/// [`CanvasError::InvalidColor`] for a string outside the recognized forms.
pub fn parse_color_str(s: &str) -> (r: Result<Rgba, CanvasError>)
    ensures
        (match parse_color(s@) {
            Some(c) => r == Ok::<Rgba, CanvasError>(c),
            None => r == Err::<Rgba, CanvasError>(CanvasError::InvalidColor),
        }),
{
    if let Some(c) = named_color_of(s) {
        return Ok(c);
    }
    let n = s.unicode_len();
    if n > 0 && s.get_char(0) == '#' {
        if n == 7 {
            match (hex_byte_at(s, 1), hex_byte_at(s, 3), hex_byte_at(s, 5)) {
                (Some(r), Some(g), Some(b)) => Ok(Rgba { r, g, b, a: 255 }),
                _ => Err(CanvasError::InvalidColor),
            }
        } else if n == 9 {
            match (hex_byte_at(s, 1), hex_byte_at(s, 3), hex_byte_at(s, 5), hex_byte_at(s, 7)) {
                (Some(r), Some(g), Some(b), Some(a)) => Ok(Rgba { r, g, b, a }),
                _ => Err(CanvasError::InvalidColor),
            }
        } else {
            Err(CanvasError::InvalidColor)
        }
    } else if n >= 5 && s.get_char(0) == 'r' && s.get_char(1) == 'g' && s.get_char(2) == 'b'
        && s.get_char(3) == 'a' && s.get_char(4) == '(' {
        parse_rgba_tail(s)
    } else if n >= 4 && s.get_char(0) == 'r' && s.get_char(1) == 'g' && s.get_char(2) == 'b'
        && s.get_char(3) == '(' {
        parse_rgb_tail(s)
    } else {
        Err(CanvasError::InvalidColor)
    }
}

/// Parses the components of an `rgb(r,g,b)` string.
fn parse_rgb_tail(s: &str) -> (r: Result<Rgba, CanvasError>)
    requires
        has_rgb_prefix(s@),
        !has_rgba_prefix(s@),
    ensures
        (match rgb_color(s@) {
            Some(c) => r == Ok::<Rgba, CanvasError>(c),
            None => r == Err::<Rgba, CanvasError>(CanvasError::InvalidColor),
        }),
{
    let n = s.unicode_len();
    let e1 = scan_digits(s, 4);
    if e1 >= n || s.get_char(e1) != ',' {
        return Err(CanvasError::InvalidColor);
    }
    let e2 = scan_digits(s, e1 + 1);
    if e2 >= n || s.get_char(e2) != ',' {
        return Err(CanvasError::InvalidColor);
    }
    let e3 = scan_digits(s, e2 + 1);
    if e3 >= n {
        return Err(CanvasError::InvalidColor);
    }
    if e3 + 1 != n {
        return Err(CanvasError::InvalidColor);
    }
    if s.get_char(e3) != ')' {
        return Err(CanvasError::InvalidColor);
    }
    match (component_value(s, 4, e1), component_value(s, e1 + 1, e2), component_value(
        s,
        e2 + 1,
        e3,
    )) {
        (Some(r), Some(g), Some(b)) => Ok(Rgba { r, g, b, a: 255 }),
        _ => Err(CanvasError::InvalidColor),
    }
}

/// Parses the components of an `rgba(r,g,b,a)` string.
fn parse_rgba_tail(s: &str) -> (r: Result<Rgba, CanvasError>)
    requires
        has_rgba_prefix(s@),
    ensures
        (match rgba_color(s@) {
            Some(c) => r == Ok::<Rgba, CanvasError>(c),
            None => r == Err::<Rgba, CanvasError>(CanvasError::InvalidColor),
        }),
{
    let n = s.unicode_len();
    let e1 = scan_digits(s, 5);
    if e1 >= n || s.get_char(e1) != ',' {
        return Err(CanvasError::InvalidColor);
    }
    let e2 = scan_digits(s, e1 + 1);
    if e2 >= n || s.get_char(e2) != ',' {
        return Err(CanvasError::InvalidColor);
    }
    let e3 = scan_digits(s, e2 + 1);
    if e3 >= n || s.get_char(e3) != ',' {
        return Err(CanvasError::InvalidColor);
    }
    if s.get_char(n - 1) != ')' {
        return Err(CanvasError::InvalidColor);
    }
    proof {
        assert(e3 + 1 <= n - 1);
    }
    let a = alpha_value(s, e3 + 1, n - 1);
    match (component_value(s, 5, e1), component_value(s, e1 + 1, e2), component_value(
        s,
        e2 + 1,
        e3,
    ), a) {
        (Some(r), Some(g), Some(b), Some(a)) => Ok(Rgba { r, g, b, a }),
        _ => Err(CanvasError::InvalidColor),
    }
}

} // verus!
