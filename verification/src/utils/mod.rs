//! Colors as people write them: in hexadecimal, as three decimal channels,
//! or by name.

pub mod discovery;

use vstd::prelude::*;
use vstd::string::StringExecFns;
use crate::models::color::{is_hex_body, parse_hex, read_hex, Color};
use crate::text::{
    chars_of, contains_char, hex_digit, is_hex_digit, parse_decimal_up_to, parse_unsigned,
    same_text, split, split_on, trim, trimmed,
};

verus! {

/// Why a text is no color.
#[derive(Debug)]
pub enum ColorParseError {
    /// The text set out as hexadecimal and is not six digits; the payload
    /// is the message of the `InvalidColor` that `Color::from_hex` gave.
    InvalidHex(String),
    /// The text holds commas, but not two of them.
    WrongArity,
    /// The first of three channels is no number from 0 to 255.
    InvalidRed,
    /// The second of three channels is no number from 0 to 255.
    InvalidGreen,
    /// The third of three channels is no number from 0 to 255.
    InvalidBlue,
    /// The text is none of the known names; the payload is the text.
    UnknownName(String),
}

/// `ColorParseError` with its texts as sequences of characters.
pub enum ColorParseFailure {
    InvalidHex(Seq<char>),
    WrongArity,
    InvalidRed,
    InvalidGreen,
    InvalidBlue,
    UnknownName(Seq<char>),
}

impl View for ColorParseError {
    type V = ColorParseFailure;

    open spec fn view(&self) -> ColorParseFailure {
        match self {
            ColorParseError::InvalidHex(m) => ColorParseFailure::InvalidHex(m@),
            ColorParseError::WrongArity => ColorParseFailure::WrongArity,
            ColorParseError::InvalidRed => ColorParseFailure::InvalidRed,
            ColorParseError::InvalidGreen => ColorParseFailure::InvalidGreen,
            ColorParseError::InvalidBlue => ColorParseFailure::InvalidBlue,
            ColorParseError::UnknownName(n) => ColorParseFailure::UnknownName(n@),
        }
    }
}

/// What `ColorParseError::message` says of each failure.
pub open spec fn failure_message(f: ColorParseFailure) -> Seq<char> {
    match f {
        ColorParseFailure::InvalidHex(m) => "Invalid hex color: Invalid color format: "@ + m,
        ColorParseFailure::WrongArity => "RGB format must be r,g,b"@,
        ColorParseFailure::InvalidRed => "Invalid red value"@,
        ColorParseFailure::InvalidGreen => "Invalid green value"@,
        ColorParseFailure::InvalidBlue => "Invalid blue value"@,
        ColorParseFailure::UnknownName(n) => "Unknown color: "@ + n,
    }
}

impl ColorParseError {
    /// The failure in words.
    pub fn message(&self) -> (m: String)
        ensures
            m@ == failure_message(self@),
    {
        match self {
            ColorParseError::InvalidHex(m) => String::from_str(
                "Invalid hex color: Invalid color format: ",
            ).concat(m.as_str()),
            ColorParseError::WrongArity => String::from_str("RGB format must be r,g,b"),
            ColorParseError::InvalidRed => String::from_str("Invalid red value"),
            ColorParseError::InvalidGreen => String::from_str("Invalid green value"),
            ColorParseError::InvalidBlue => String::from_str("Invalid blue value"),
            ColorParseError::UnknownName(n) => String::from_str("Unknown color: ").concat(
                n.as_str(),
            ),
        }
    }
}

/// The lower-case form of a text, as `str::to_lowercase` gives it.
pub uninterp spec fn lowercase_of(s: Seq<char>) -> Seq<char>;

/// `str::to_lowercase` of std. The result is named `lowercase_of`:
/// nothing is claimed of it but that it is decided by the characters of
/// `s` alone.
#[verifier::external_body]
pub(crate) fn to_lowercase(s: &str) -> (r: String)
    ensures
        r@ == lowercase_of(s@),
{
    s.to_lowercase()
}

/// The color that goes by the lower-case name `name`.
pub open spec fn named_color(name: Seq<char>) -> Option<Color> {
    if name == "red"@ {
        Some(Color { r: 255, g: 0, b: 0 })
    } else if name == "green"@ {
        Some(Color { r: 0, g: 255, b: 0 })
    } else if name == "blue"@ {
        Some(Color { r: 0, g: 0, b: 255 })
    } else if name == "white"@ {
        Some(Color { r: 255, g: 255, b: 255 })
    } else if name == "black"@ {
        Some(Color { r: 0, g: 0, b: 0 })
    } else if name == "yellow"@ {
        Some(Color { r: 255, g: 255, b: 0 })
    } else if name == "cyan"@ {
        Some(Color { r: 0, g: 255, b: 255 })
    } else if name == "magenta"@ {
        Some(Color { r: 255, g: 0, b: 255 })
    } else if name == "orange"@ {
        Some(Color { r: 255, g: 165, b: 0 })
    } else if name == "purple"@ {
        Some(Color { r: 128, g: 0, b: 128 })
    } else {
        None
    }
}

/// Looks a color up by its name, which is expected in lower case.
pub fn color_by_name(name: &str) -> (r: Option<Color>)
    ensures
        r == named_color(name@),
{
    if same_text(name, "red") {
        Some(Color::red())
    } else if same_text(name, "green") {
        Some(Color::green())
    } else if same_text(name, "blue") {
        Some(Color::blue())
    } else if same_text(name, "white") {
        Some(Color::white())
    } else if same_text(name, "black") {
        Some(Color::black())
    } else if same_text(name, "yellow") {
        Some(Color::yellow())
    } else if same_text(name, "cyan") {
        Some(Color::cyan())
    } else if same_text(name, "magenta") {
        Some(Color::magenta())
    } else if same_text(name, "orange") {
        Some(Color::orange())
    } else if same_text(name, "purple") {
        Some(Color::purple())
    } else {
        None
    }
}

/// The channel that `piece` writes: a decimal number from 0 to 255, with
/// white space allowed around it.
pub open spec fn parse_channel(piece: Seq<char>) -> Option<nat> {
    parse_decimal_up_to(trimmed(piece), 255)
}

/// The color that `s` writes as three channels between two commas.
pub open spec fn parse_triple(s: Seq<char>) -> Result<Color, ColorParseFailure> {
    let pieces = split_on(s, ',');
    if pieces.len() != 3 {
        Err(ColorParseFailure::WrongArity)
    } else {
        match parse_channel(pieces[0]) {
            None => Err(ColorParseFailure::InvalidRed),
            Some(r) => match parse_channel(pieces[1]) {
                None => Err(ColorParseFailure::InvalidGreen),
                Some(g) => match parse_channel(pieces[2]) {
                    None => Err(ColorParseFailure::InvalidBlue),
                    Some(b) => Ok(Color { r: r as u8, g: g as u8, b: b as u8 }),
                },
            },
        }
    }
}

/// Whether `s` is read as hexadecimal: it starts with `#`, or it is six
/// hexadecimal digits.
pub open spec fn looks_hexadecimal(s: Seq<char>) -> bool {
    (s.len() > 0 && s[0] == '#') || is_hex_body(s)
}

/// What `parse_color` makes of `s`, given the lower-case form `lowered`
/// of `s`. Hexadecimal notation comes first, then three channels, then
/// the names.
pub open spec fn parse_color_with(s: Seq<char>, lowered: Seq<char>) -> Result<
    Color,
    ColorParseFailure,
> {
    if looks_hexadecimal(s) {
        match parse_hex(s) {
            Ok(c) => Ok(c),
            Err(m) => Err(ColorParseFailure::InvalidHex(m)),
        }
    } else if s.contains(',') {
        parse_triple(s)
    } else {
        match named_color(lowered) {
            Some(c) => Ok(c),
            None => Err(ColorParseFailure::UnknownName(s)),
        }
    }
}

/// Reads one channel.
fn read_channel(piece: &Vec<char>) -> (r: Option<u8>)
    ensures
        r is Some <==> parse_channel(piece@) is Some,
        r matches Some(v) ==> parse_channel(piece@) == Some(v as nat),
{
    let t = trim(piece);
    match parse_unsigned(&t, 255) {
        Some(v) => Some(v as u8),
        None => None,
    }
}

/// Reads three channels between two commas.
fn read_triple(chars: &Vec<char>) -> (r: Result<Color, ColorParseError>)
    ensures
        match parse_triple(chars@) {
            Ok(c) => r == Ok::<Color, ColorParseError>(c),
            Err(f) => r is Err && r->Err_0@ == f,
        },
{
    let pieces = split(chars, ',');
    if pieces.len() != 3 {
        return Err(ColorParseError::WrongArity);
    }
    let r = match read_channel(&pieces[0]) {
        Some(r) => r,
        None => {
            return Err(ColorParseError::InvalidRed);
        },
    };
    let g = match read_channel(&pieces[1]) {
        Some(g) => g,
        None => {
            return Err(ColorParseError::InvalidGreen);
        },
    };
    let b = match read_channel(&pieces[2]) {
        Some(b) => b,
        None => {
            return Err(ColorParseError::InvalidBlue);
        },
    };
    Ok(Color { r, g, b })
}

/// Whether `chars` is six hexadecimal digits.
fn is_bare_hex(chars: &Vec<char>) -> (b: bool)
    ensures
        b == is_hex_body(chars@),
{
    if chars.len() != 6 {
        return false;
    }
    let mut i: usize = 0;
    while i < 6
        invariant
            i <= 6 == chars.len(),
            forall|j: int| 0 <= j < i ==> is_hex_digit(#[trigger] chars[j]),
        decreases 6 - i,
    {
        if hex_digit(chars[i]).is_none() {
            return false;
        }
        i += 1;
    }
    true
}

/// Reads a color from `input`, whose lower-case form is `lowered`.
pub fn parse_color_lowered(input: &str, lowered: &str) -> (r: Result<Color, ColorParseError>)
    ensures
        match parse_color_with(input@, lowered@) {
            Ok(c) => r == Ok::<Color, ColorParseError>(c),
            Err(f) => r is Err && r->Err_0@ == f,
        },
{
    let chars = chars_of(input);
    if (chars.len() > 0 && chars[0] == '#') || is_bare_hex(&chars) {
        match read_hex(input) {
            Ok(c) => Ok(c),
            Err(m) => Err(ColorParseError::InvalidHex(m)),
        }
    } else if contains_char(&chars, ',') {
        read_triple(&chars)
    } else {
        match color_by_name(lowered) {
            Some(c) => Ok(c),
            None => Err(ColorParseError::UnknownName(String::from_str(input))),
        }
    }
}

/// Reads a color in any of three notations, tried in this order: six
/// hexadecimal digits, with or without `#`; three decimal channels
/// between commas; a name, in any case.
pub fn parse_color(input: &str) -> (r: Result<Color, ColorParseError>)
    ensures
        match parse_color_with(input@, lowercase_of(input@)) {
            Ok(c) => r == Ok::<Color, ColorParseError>(c),
            Err(f) => r is Err && r->Err_0@ == f,
        },
{
    let lowered = to_lowercase(input);
    parse_color_lowered(input, lowered.as_str())
}

} // verus!
