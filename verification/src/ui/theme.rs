//! The colour theme read from a pywal `colors.json` file.
//!
//! Pywal colour slots map to interface roles: background and foreground from
//! the `special` section, accent from `color1`, dimmed from `color8`,
//! secondary from `color2` and border from `color4`, each written `#RRGGBB`.
use vstd::prelude::*;
use vstd::utf8::*;
use vstd::string::StringSliceAdditionalSpecFns;

verus! {

/// The text of `key` inside the object `section` of a JSON document, as
/// `serde_json` reads it: `None` when the document does not parse, either
/// member is missing or the entry is not a string.
pub uninterp spec fn json_entry(json: Seq<char>, section: Seq<char>, key: Seq<char>) -> Option<Seq<char>>;

/// `serde_json::from_str` into a `serde_json::Value`, then the string at
/// `section`, `key`. The result is stated only through the name
/// `json_entry`, a function of the three texts alone.
#[verifier::external_body]
pub fn json_entry_text(json: &str, section: &str, key: &str) -> (r: Option<String>)
    ensures
        match r {
            Some(s) => json_entry(json@, section@, key@) == Some(s@),
            None => json_entry(json@, section@, key@) is None,
        },
{
    match serde_json::from_str::<serde_json::Value>(json) {
        Ok(v) => v.get(section).and_then(|x| x.get(key)).and_then(|x| x.as_str()).map(|x| x.to_string()),
        Err(_) => None,
    }
}

/// An ASCII hexadecimal digit.
pub open spec fn is_hex_digit(c: u8) -> bool {
    (48 <= c <= 57) || (65 <= c <= 70) || (97 <= c <= 102)
}

/// The value of an ASCII hexadecimal digit.
pub open spec fn hex_digit_value(c: u8) -> u8 {
    if c <= 57 { (c - 48) as u8 } else if c <= 70 { (c - 55) as u8 } else { (c - 87) as u8 }
}

/// Two bytes read as a base-16 `u8` the way `u8::from_str_radix` reads
/// them: a leading `+` followed by one digit, or two digits.
pub open spec fn hex_pair(a: u8, b: u8) -> Option<u8> {
    if a == 43 {
        if is_hex_digit(b) { Some(hex_digit_value(b)) } else { None }
    } else if is_hex_digit(a) && is_hex_digit(b) {
        Some((16 * hex_digit_value(a) + hex_digit_value(b)) as u8)
    } else {
        None
    }
}

/// The colour a `#RRGGBB` text names, given its UTF-8 bytes: a `#`, then
/// exactly six bytes read in pairs as red, green and blue.
pub open spec fn hex_color(b: Seq<u8>) -> Option<(u8, u8, u8)> {
    if b.len() != 7 || b[0] != 35 {
        None
    } else {
        match (hex_pair(b[1], b[2]), hex_pair(b[3], b[4]), hex_pair(b[5], b[6])) {
            (Some(r), Some(g), Some(bl)) => Some((r, g, bl)),
            _ => None,
        }
    }
}

/// Whether cutting the six bytes after `#` into pairs falls on character
/// boundaries as far as the reading goes: the red pair always, the green
/// pair once the red one has been read.
pub open spec fn hex_fits(b: Seq<u8>) -> bool {
    b.len() != 7 || b[0] != 35 || (is_char_boundary(b, 3) && (hex_pair(b[1], b[2]) is Some ==> is_char_boundary(b, 5)))
}

fn hex_pair_of(a: u8, b: u8) -> (r: Option<u8>)
    ensures
        r == hex_pair(a, b),
{
    let da = hex_digit(a);
    let db = hex_digit(b);
    if a == 43 {
        db
    } else {
        match (da, db) {
            (Some(x), Some(y)) => Some(16 * x + y),
            _ => None,
        }
    }
}

fn hex_digit(c: u8) -> (r: Option<u8>)
    ensures
        r == (if is_hex_digit(c) { Some(hex_digit_value(c)) } else { None::<u8> }),
        r matches Some(v) ==> v < 16,
{
    if 48 <= c && c <= 57 {
        Some(c - 48)
    } else if 65 <= c && c <= 70 {
        Some(c - 55)
    } else if 97 <= c && c <= 102 {
        Some(c - 87)
    } else {
        None
    }
}

/// Convert a `#RRGGBB` text to its red, green and blue values.
pub fn parse_hex(hex: &str) -> (r: Option<(u8, u8, u8)>)
    requires
        hex_fits(hex.spec_bytes()),
    ensures
        r == hex_color(hex.spec_bytes()),
{
    let b = hex.as_bytes();
    if b.len() != 7 || b[0] != 35 {
        return None;
    }
    match (hex_pair_of(b[1], b[2]), hex_pair_of(b[3], b[4]), hex_pair_of(b[5], b[6])) {
        (Some(r), Some(g), Some(bl)) => Some((r, g, bl)),
        _ => None,
    }
}

/// Whether `hex` can be read by `parse_hex`.
pub fn hex_text_fits(hex: &str) -> (b: bool)
    ensures
        b == hex_fits(hex.spec_bytes()),
{
    let b = hex.as_bytes();
    if b.len() != 7 || b[0] != 35 {
        return true;
    }
    hex.is_char_boundary(3) && (hex_pair_of(b[1], b[2]).is_none() || hex.is_char_boundary(5))
}

/// Red, green and blue values of each interface role.
#[derive(Debug, Clone, Copy)]
pub struct ThemeColors {
    pub bg: (u8, u8, u8),
    pub fg: (u8, u8, u8),
    pub accent: (u8, u8, u8),
    pub dimmed: (u8, u8, u8),
    pub secondary: (u8, u8, u8),
    pub border: (u8, u8, u8),
}

/// The colour of one entry of the document; `None` when the entry is
/// missing, is no colour, or is a text whose pairs would be cut inside a
/// character.
pub open spec fn entry_color(json: Seq<char>, section: Seq<char>, key: Seq<char>) -> Option<(u8, u8, u8)> {
    match json_entry(json, section, key) {
        Some(t) => if hex_fits(encode_utf8(t)) { hex_color(encode_utf8(t)) } else { None },
        None => None,
    }
}

/// The theme a pywal document describes, when all six colours are there.
pub open spec fn pywal_theme_spec(json: Seq<char>) -> Option<ThemeColors> {
    match (
        entry_color(json, "special"@, "background"@),
        entry_color(json, "special"@, "foreground"@),
        entry_color(json, "colors"@, "color1"@),
        entry_color(json, "colors"@, "color8"@),
        entry_color(json, "colors"@, "color2"@),
        entry_color(json, "colors"@, "color4"@),
    ) {
        (Some(bg), Some(fg), Some(accent), Some(dimmed), Some(secondary), Some(border)) =>
            Some(ThemeColors { bg, fg, accent, dimmed, secondary, border }),
        _ => None,
    }
}

fn entry_color_of(json: &str, section: &str, key: &str) -> (r: Option<(u8, u8, u8)>)
    ensures
        r == entry_color(json@, section@, key@),
{
    match json_entry_text(json, section, key) {
        Some(t) => {
            let s = t.as_str();
            if hex_text_fits(s) { parse_hex(s) } else { None }
        },
        None => None,
    }
}

/// Read the six colours of a pywal `colors.json` document: background and
/// foreground from `special`, then color1, color8, color2 and color4 from
/// `colors`. `None` unless all six are `#RRGGBB` texts.
pub fn pywal_theme(json: &str) -> (r: Option<ThemeColors>)
    ensures
        r == pywal_theme_spec(json@),
{
    let bg = entry_color_of(json, "special", "background");
    let fg = entry_color_of(json, "special", "foreground");
    let accent = entry_color_of(json, "colors", "color1");
    let dimmed = entry_color_of(json, "colors", "color8");
    let secondary = entry_color_of(json, "colors", "color2");
    let border = entry_color_of(json, "colors", "color4");
    match (bg, fg, accent, dimmed, secondary, border) {
        (Some(bg), Some(fg), Some(accent), Some(dimmed), Some(secondary), Some(border)) =>
            Some(ThemeColors { bg, fg, accent, dimmed, secondary, border }),
        _ => None,
    }
}

} // verus!
