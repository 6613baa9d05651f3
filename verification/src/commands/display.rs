//! The mood light and the screen.

use vstd::prelude::*;
use vstd::string::StringExecFns;
use crate::commands::{CommandError, CommandFailure};
use crate::models::color::{hex_text, parse_hex, read_hex, Color};
use crate::text::{decimal_text, push_decimal, text_of};

verus! {

/// Whether a color temperature is one that the device takes.
pub open spec fn kelvin_in_range(kelvin: u16) -> bool {
    2000 <= kelvin <= 6500
}

/// The color of a mood light, given in hexadecimal, after the color
/// temperature was found in order.
pub open spec fn mood_color_of(color: Option<Seq<char>>, kelvin: Option<u16>) -> Result<
    Option<Color>,
    CommandFailure,
> {
    if kelvin is Some && !kelvin_in_range(kelvin->0) {
        Err(CommandFailure::KelvinOutOfRange)
    } else {
        match color {
            Some(text) => match parse_hex(text) {
                Ok(c) => Ok(Some(c)),
                Err(m) => Err(CommandFailure::InvalidHexColor(m)),
            },
            None => Ok(None),
        }
    }
}

/// Checks the color temperature and reads the color of a mood light.
pub fn mood_color(color: &Option<String>, kelvin: Option<u16>) -> (r: Result<
    Option<Color>,
    CommandError,
>)
    ensures
        match mood_color_of(text_of(*color), kelvin) {
            Ok(c) => r == Ok::<Option<Color>, CommandError>(c),
            Err(f) => r is Err && r->Err_0@ == f,
        },
{
    if let Some(k) = kelvin {
        if k < 2000 || k > 6500 {
            return Err(CommandError::KelvinOutOfRange);
        }
    }
    match color {
        Some(text) => match read_hex(text.as_str()) {
            Ok(c) => Ok(Some(c)),
            Err(m) => Err(CommandError::InvalidHexColor(m)),
        },
        None => Ok(None),
    }
}

/// What is reported once a mood light is set.
pub open spec fn mood_report(
    color: Option<Color>,
    kelvin: Option<u16>,
    brightness: Option<u8>,
) -> Seq<char> {
    match (color, kelvin, brightness) {
        (Some(c), None, Some(b)) => "Mood light set to color "@ + hex_text(c)
            + " with brightness "@ + decimal_text(b as nat),
        (None, Some(k), Some(b)) => "Mood light set to "@ + decimal_text(k as nat)
            + "K with brightness "@ + decimal_text(b as nat),
        (Some(c), None, None) => "Mood light set to color "@ + hex_text(c),
        (None, Some(k), None) => "Mood light set to "@ + decimal_text(k as nat) + "K"@,
        (None, None, Some(b)) => "Mood light brightness set to "@ + decimal_text(b as nat),
        _ => "Mood light updated"@,
    }
}

/// The report of a mood light that was set.
pub fn mood_feedback(
    color: Option<Color>,
    kelvin: Option<u16>,
    brightness: Option<u8>,
) -> (s: String)
    ensures
        s@ == mood_report(color, kelvin, brightness),
{
    match (color, kelvin, brightness) {
        (Some(c), None, Some(b)) => {
            let mut s = String::from_str("Mood light set to color ").concat(
                c.to_hex().as_str(),
            ).concat(" with brightness ");
            push_decimal(&mut s, b as u64);
            s
        },
        (None, Some(k), Some(b)) => {
            let mut s = String::from_str("Mood light set to ");
            push_decimal(&mut s, k as u64);
            s.append("K with brightness ");
            push_decimal(&mut s, b as u64);
            s
        },
        (Some(c), None, None) => String::from_str("Mood light set to color ").concat(
            c.to_hex().as_str(),
        ),
        (None, Some(k), None) => {
            let mut s = String::from_str("Mood light set to ");
            push_decimal(&mut s, k as u64);
            s.append("K");
            s
        },
        (None, None, Some(b)) => {
            let mut s = String::from_str("Mood light brightness set to ");
            push_decimal(&mut s, b as u64);
            s
        },
        _ => String::from_str("Mood light updated"),
    }
}

/// The frames a second at which to show the screen: at most 60.
pub fn frames_per_second(fps: u8) -> (r: Result<u8, CommandError>)
    ensures
        fps <= 60 ==> r == Ok::<u8, CommandError>(fps),
        fps > 60 ==> r is Err && r->Err_0 is FpsTooHigh,
{
    if fps > 60 {
        Err(CommandError::FpsTooHigh)
    } else {
        Ok(fps)
    }
}

} // verus!
