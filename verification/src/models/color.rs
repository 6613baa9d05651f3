//! Colors and their hexadecimal notation.

use vstd::prelude::*;
use vstd::string::StringExecFns;
use crate::error::AwtrixError;
use crate::text::{
    chars_of, hex_digit, hex_digit_value, is_hex_digit, upper_hex_digit, upper_hex_digit_text,
};

verus! {

/// A color as three 8-bit channels.
#[derive(Debug, Clone, Copy, PartialEq, Eq, Structural)]
pub struct Color {
    pub r: u8,
    pub g: u8,
    pub b: u8,
}

/// `s` without its leading `#`, if it has one.
pub open spec fn strip_hash(s: Seq<char>) -> Seq<char> {
    if s.len() > 0 && s[0] == '#' {
        s.drop_first()
    } else {
        s
    }
}

/// Whether `s` is exactly six hexadecimal digits.
pub open spec fn is_hex_body(s: Seq<char>) -> bool {
    &&& s.len() == 6
    &&& forall|i: int| 0 <= i < 6 ==> is_hex_digit(#[trigger] s[i])
}

/// The channel that the two hexadecimal digits `hi` and `lo` spell.
pub open spec fn hex_pair_value(hi: char, lo: char) -> int {
    16 * hex_digit_value(hi) + hex_digit_value(lo)
}

/// The color that six hexadecimal digits spell, two per channel.
pub open spec fn color_of_hex_body(s: Seq<char>) -> Color {
    Color {
        r: hex_pair_value(s[0], s[1]) as u8,
        g: hex_pair_value(s[2], s[3]) as u8,
        b: hex_pair_value(s[4], s[5]) as u8,
    }
}

/// What `Color::from_hex` says of a text that is not a color; `body` is
/// the text after its `#` was taken off.
pub open spec fn invalid_hex_message(body: Seq<char>) -> Seq<char> {
    if body.len() != 6 {
        "Hex color must be 6 characters, got: "@ + body
    } else {
        "Invalid hex color: "@ + body
    }
}

/// What `Color::from_hex` makes of `s`: the color, or else the message of
/// the error.
pub open spec fn parse_hex(s: Seq<char>) -> Result<Color, Seq<char>> {
    if is_hex_body(strip_hash(s)) {
        Ok(color_of_hex_body(strip_hash(s)))
    } else {
        Err(invalid_hex_message(strip_hash(s)))
    }
}

/// The two upper-case hexadecimal digits of a channel.
pub open spec fn channel_hex(v: u8) -> Seq<char> {
    seq![upper_hex_digit(v as int / 16), upper_hex_digit(v as int % 16)]
}

/// The canonical notation of a color: `#` and six upper-case digits.
pub open spec fn hex_text(c: Color) -> Seq<char> {
    seq!['#'] + channel_hex(c.r) + channel_hex(c.g) + channel_hex(c.b)
}

/// Reads the channel spelled by `chars[at]` and `chars[at + 1]`.
fn hex_pair(chars: &Vec<char>, at: usize) -> (r: Option<u8>)
    requires
        at + 1 < chars.len(),
    ensures
        r is Some <==> is_hex_digit(chars[at as int]) && is_hex_digit(chars[at + 1]),
        r matches Some(v) ==> v == hex_pair_value(chars[at as int], chars[at + 1]),
{
    match (hex_digit(chars[at]), hex_digit(chars[at + 1])) {
        (Some(hi), Some(lo)) => Some(hi * 16 + lo),
        _ => None,
    }
}

/// Appends the two digits of `v` to `out`.
fn push_channel_hex(out: &mut String, v: u8)
    ensures
        final(out)@ == old(out)@ + channel_hex(v),
{
    out.append(upper_hex_digit_text(v / 16));
    out.append(upper_hex_digit_text(v % 16));
}

/// Reads a color from six hexadecimal digits, with or without a `#` in
/// front; the error is the message that names the text after the `#`.
pub fn read_hex(hex: &str) -> (r: Result<Color, String>)
    ensures
        match parse_hex(hex@) {
            Ok(c) => r == Ok::<Color, String>(c),
            Err(m) => r is Err && r->Err_0@ == m,
        },
{
    let n = hex.unicode_len();
    let hashed = n > 0 && hex.get_char(0) == '#';
    let body: &str = if hashed {
        hex.substring_char(1, n)
    } else {
        hex
    };
    let len = if hashed {
        n - 1
    } else {
        n
    };
    if len != 6 {
        return Err(String::from_str("Hex color must be 6 characters, got: ").concat(body));
    }
    let chars = chars_of(body);
    match (hex_pair(&chars, 0), hex_pair(&chars, 2), hex_pair(&chars, 4)) {
        (Some(r), Some(g), Some(b)) => {
            Ok(Color { r, g, b })
        },
        _ => Err(String::from_str("Invalid hex color: ").concat(body)),
    }
}

impl Color {
    /// The color with the given channels.
    pub fn new(r: u8, g: u8, b: u8) -> (c: Color)
        ensures
            c == (Color { r, g, b }),
    {
        Color { r, g, b }
    }

    /// Reads a color from six hexadecimal digits, with or without a `#`
    /// in front. Anything else is an `InvalidColor` that names the text
    /// after the `#`.
    pub fn from_hex(hex: &str) -> (r: Result<Color, AwtrixError>)
        ensures
            match parse_hex(hex@) {
                Ok(c) => r == Ok::<Color, AwtrixError>(c),
                Err(m) => r matches Err(AwtrixError::InvalidColor(text)) && text@ == m,
            },
    {
        match read_hex(hex) {
            Ok(c) => Ok(c),
            Err(message) => Err(AwtrixError::InvalidColor(message)),
        }
    }

    /// The canonical notation of this color.
    pub fn to_hex(&self) -> (s: String)
        ensures
            s@ == hex_text(*self),
    {
        let mut s = String::from_str("#");
        proof {
            reveal_strlit("#");
        }
        push_channel_hex(&mut s, self.r);
        push_channel_hex(&mut s, self.g);
        push_channel_hex(&mut s, self.b);
        s
    }

    /// The channels in the order red, green, blue.
    pub fn to_rgb_array(&self) -> (a: [u8; 3])
        ensures
            a@ == seq![self.r, self.g, self.b],
    {
        [self.r, self.g, self.b]
    }
}


impl Color {
    pub fn white() -> (c: Color)
        ensures
            c == (Color { r: 255, g: 255, b: 255 }),
    {
        Color { r: 255, g: 255, b: 255 }
    }

    pub fn black() -> (c: Color)
        ensures
            c == (Color { r: 0, g: 0, b: 0 }),
    {
        Color { r: 0, g: 0, b: 0 }
    }

    pub fn red() -> (c: Color)
        ensures
            c == (Color { r: 255, g: 0, b: 0 }),
    {
        Color { r: 255, g: 0, b: 0 }
    }

    pub fn green() -> (c: Color)
        ensures
            c == (Color { r: 0, g: 255, b: 0 }),
    {
        Color { r: 0, g: 255, b: 0 }
    }

    pub fn blue() -> (c: Color)
        ensures
            c == (Color { r: 0, g: 0, b: 255 }),
    {
        Color { r: 0, g: 0, b: 255 }
    }

    pub fn yellow() -> (c: Color)
        ensures
            c == (Color { r: 255, g: 255, b: 0 }),
    {
        Color { r: 255, g: 255, b: 0 }
    }

    pub fn cyan() -> (c: Color)
        ensures
            c == (Color { r: 0, g: 255, b: 255 }),
    {
        Color { r: 0, g: 255, b: 255 }
    }

    pub fn magenta() -> (c: Color)
        ensures
            c == (Color { r: 255, g: 0, b: 255 }),
    {
        Color { r: 255, g: 0, b: 255 }
    }

    pub fn orange() -> (c: Color)
        ensures
            c == (Color { r: 255, g: 165, b: 0 }),
    {
        Color { r: 255, g: 165, b: 0 }
    }

    pub fn purple() -> (c: Color)
        ensures
            c == (Color { r: 128, g: 0, b: 128 }),
    {
        Color { r: 128, g: 0, b: 128 }
    }
}

impl From<[u8; 3]> for Color {
    fn from(rgb: [u8; 3]) -> (c: Color) {
        Color::new(rgb[0], rgb[1], rgb[2])
    }
}

impl vstd::std_specs::convert::FromSpecImpl<[u8; 3]> for Color {
    open spec fn obeys_from_spec() -> bool {
        true
    }

    open spec fn from_spec(rgb: [u8; 3]) -> Color {
        Color { r: rgb[0], g: rgb[1], b: rgb[2] }
    }
}

impl From<(u8, u8, u8)> for Color {
    fn from(rgb: (u8, u8, u8)) -> (c: Color) {
        Color::new(rgb.0, rgb.1, rgb.2)
    }
}

impl vstd::std_specs::convert::FromSpecImpl<(u8, u8, u8)> for Color {
    open spec fn obeys_from_spec() -> bool {
        true
    }

    open spec fn from_spec(rgb: (u8, u8, u8)) -> Color {
        Color { r: rgb.0, g: rgb.1, b: rgb.2 }
    }
}

/// The color that a text stands for where no failure can be reported:
/// what it spells in hexadecimal, and white where it spells nothing.
pub open spec fn color_or_white(s: Seq<char>) -> Color {
    match parse_hex(s) {
        Ok(c) => c,
        Err(_) => Color { r: 255, g: 255, b: 255 },
    }
}

impl<'a> From<&'a str> for Color {
    fn from(s: &'a str) -> (c: Color) {
        match Color::from_hex(s) {
            Ok(c) => c,
            Err(_) => Color::white(),
        }
    }
}

impl<'a> vstd::std_specs::convert::FromSpecImpl<&'a str> for Color {
    open spec fn obeys_from_spec() -> bool {
        true
    }

    open spec fn from_spec(s: &'a str) -> Color {
        color_or_white(s@)
    }
}

impl From<String> for Color {
    fn from(s: String) -> (c: Color) {
        match Color::from_hex(s.as_str()) {
            Ok(c) => c,
            Err(_) => Color::white(),
        }
    }
}

impl vstd::std_specs::convert::FromSpecImpl<String> for Color {
    open spec fn obeys_from_spec() -> bool {
        true
    }

    open spec fn from_spec(s: String) -> Color {
        color_or_white(s@)
    }
}

/// The upper-case form of a letter of the basic Latin alphabet; any other
/// character is its own.
pub open spec fn ascii_upper(c: char) -> char {
    if 'a' <= c <= 'z' {
        (c as int - 'a' as int + 'A' as int) as char
    } else {
        c
    }
}

/// `s` with each character in its `ascii_upper` form.
pub open spec fn ascii_uppercase(s: Seq<char>) -> Seq<char> {
    Seq::new(s.len(), |i: int| ascii_upper(s[i]))
}

/// Writing a hexadecimal digit's value in upper case gives the digit in
/// upper case.
pub proof fn lemma_upper_hex_digit(c: char)
    requires
        is_hex_digit(c),
    ensures
        0 <= hex_digit_value(c) < 16,
        upper_hex_digit(hex_digit_value(c)) == ascii_upper(c),
{
}

/// A color read from six hexadecimal digits, with or without `#`, is
/// written back as `#` and the same digits in upper case.
pub proof fn lemma_from_hex_then_to_hex(h: Seq<char>)
    requires
        is_hex_body(strip_hash(h)),
    ensures
        parse_hex(h) is Ok,
        hex_text(parse_hex(h)->Ok_0) == seq!['#'] + ascii_uppercase(strip_hash(h)),
{
    let body = strip_hash(h);
    assert forall|i: int| 0 <= i < 6 implies 0 <= hex_digit_value(body[i]) < 16
        && upper_hex_digit(hex_digit_value(body[i])) == ascii_upper(body[i]) by {
        lemma_upper_hex_digit(body[i]);
    }
}

/// The canonical notation of a color reads back as that color.
pub proof fn lemma_to_hex_then_from_hex(c: Color)
    ensures
        parse_hex(hex_text(c)) == Ok::<Color, Seq<char>>(c),
{
    assert(is_hex_body(strip_hash(hex_text(c))));
}

} // verus!
