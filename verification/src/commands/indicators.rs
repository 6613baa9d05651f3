//! The three indicator lights.

use vstd::prelude::*;
use crate::cli::args::IndicatorArgs;
use crate::commands::{CommandError, CommandFailure};
use crate::models::color::Color;
use crate::text::{chars_of, parse_decimal_up_to, parse_unsigned, same_text, text_of};
use crate::utils::{lowercase_of, parse_color, parse_color_with};

verus! {

/// The indicators that `indicator` names: all three for `all`, and
/// otherwise the one whose number, from 1 to 3, it is.
pub open spec fn indicators_named(indicator: Seq<char>) -> Result<Seq<u8>, CommandFailure> {
    if indicator == "all"@ {
        Ok(seq![1u8, 2u8, 3u8])
    } else {
        match parse_decimal_up_to(indicator, 255) {
            None => Err(CommandFailure::InvalidIndicator),
            Some(n) => if 1 <= n <= 3 {
                Ok(seq![n as u8])
            } else {
                Err(CommandFailure::IndicatorOutOfRange)
            },
        }
    }
}

/// The color to light an indicator in, or none to switch it off: none
/// where that is asked for, whatever color is given; else the color
/// given, which must be there.
pub open spec fn indicator_color_of(off: bool, color: Option<Seq<char>>) -> Result<
    Option<Color>,
    CommandFailure,
> {
    if off {
        Ok(None)
    } else {
        match color {
            Some(text) => match parse_color_with(text, lowercase_of(text)) {
                Ok(c) => Ok(Some(c)),
                Err(f) => Err(CommandFailure::InvalidColor(f)),
            },
            None => Err(CommandFailure::MissingColorOrOff),
        }
    }
}

/// The indicators that the arguments name.
pub fn indicators(args: &IndicatorArgs) -> (r: Result<Vec<u8>, CommandError>)
    ensures
        match indicators_named(args.indicator@) {
            Ok(numbers) => r is Ok && r->Ok_0@ == numbers,
            Err(f) => r is Err && r->Err_0@ == f,
        },
{
    if same_text(args.indicator.as_str(), "all") {
        let all = vec![1u8, 2u8, 3u8];
        return Ok(all);
    }
    let chars = chars_of(args.indicator.as_str());
    match parse_unsigned(&chars, 255) {
        None => Err(CommandError::InvalidIndicator),
        Some(n) => {
            if n < 1 || n > 3 {
                return Err(CommandError::IndicatorOutOfRange);
            }
            let one = vec![n as u8];
            Ok(one)
        },
    }
}

/// The color that the arguments give, or none to switch off.
pub fn indicator_color(args: &IndicatorArgs) -> (r: Result<Option<Color>, CommandError>)
    ensures
        match indicator_color_of(args.off, text_of(args.color)) {
            Ok(c) => r == Ok::<Option<Color>, CommandError>(c),
            Err(f) => r is Err && r->Err_0@ == f,
        },
{
    if args.off {
        return Ok(None);
    }
    match &args.color {
        Some(text) => match parse_color(text.as_str()) {
            Ok(c) => Ok(Some(c)),
            Err(e) => Err(CommandError::InvalidColor(e)),
        },
        None => Err(CommandError::MissingColorOrOff),
    }
}

/// What the arguments ask for: the indicators, and the color to light
/// them in or none to switch them off. Where both the indicator and the
/// color are out of order, the indicator is reported.
pub fn plan(args: &IndicatorArgs) -> (r: Result<(Vec<u8>, Option<Color>), CommandError>)
    ensures
        match indicators_named(args.indicator@) {
            Err(f) => r is Err && r->Err_0@ == f,
            Ok(numbers) => match indicator_color_of(args.off, text_of(args.color)) {
                Err(f) => r is Err && r->Err_0@ == f,
                Ok(c) => r is Ok && r->Ok_0.0@ == numbers && r->Ok_0.1 == c,
            },
        },
{
    let numbers = indicators(args)?;
    let color = indicator_color(args)?;
    Ok((numbers, color))
}

} // verus!
