//! What each command decides before anything is sent: whether its
//! arguments are in order, and what they stand for.

pub mod apps;
pub mod custom;
pub mod device;
pub mod display;
pub mod indicators;
pub mod notify;
pub mod power;
pub mod settings;
pub mod sound;

use vstd::prelude::*;
use vstd::string::StringExecFns;
use crate::utils::{failure_message, ColorParseError, ColorParseFailure};

verus! {

/// Why the arguments of a command are not in order.
#[derive(Debug)]
pub enum CommandError {
    /// The device was asked to sleep for no time at all.
    SleepDurationZero,
    /// A progress above 100 was given.
    ProgressOutOfRange,
    /// A color was given that is none.
    InvalidColor(ColorParseError),
    /// A color was given that is not six hexadecimal digits; the payload
    /// is the message that names the text.
    InvalidHexColor(String),
    /// The indicator is neither a number nor `all`.
    InvalidIndicator,
    /// The indicator is a number outside 1 to 3.
    IndicatorOutOfRange,
    /// Neither a color was given for an indicator nor that it go off.
    MissingColorOrOff,
    /// The color temperature is outside 2000 K to 6500 K.
    KelvinOutOfRange,
    /// More than 60 frames a second were asked for.
    FpsTooHigh,
    /// The melody has no colon, so it is no RTTTL.
    InvalidRtttl,
}

/// `CommandError` with its texts as sequences of characters.
pub enum CommandFailure {
    SleepDurationZero,
    ProgressOutOfRange,
    InvalidColor(ColorParseFailure),
    InvalidHexColor(Seq<char>),
    InvalidIndicator,
    IndicatorOutOfRange,
    MissingColorOrOff,
    KelvinOutOfRange,
    FpsTooHigh,
    InvalidRtttl,
}

impl View for CommandError {
    type V = CommandFailure;

    open spec fn view(&self) -> CommandFailure {
        match self {
            CommandError::SleepDurationZero => CommandFailure::SleepDurationZero,
            CommandError::ProgressOutOfRange => CommandFailure::ProgressOutOfRange,
            CommandError::InvalidColor(e) => CommandFailure::InvalidColor(e@),
            CommandError::InvalidHexColor(m) => CommandFailure::InvalidHexColor(m@),
            CommandError::InvalidIndicator => CommandFailure::InvalidIndicator,
            CommandError::IndicatorOutOfRange => CommandFailure::IndicatorOutOfRange,
            CommandError::MissingColorOrOff => CommandFailure::MissingColorOrOff,
            CommandError::KelvinOutOfRange => CommandFailure::KelvinOutOfRange,
            CommandError::FpsTooHigh => CommandFailure::FpsTooHigh,
            CommandError::InvalidRtttl => CommandFailure::InvalidRtttl,
        }
    }
}

/// What `CommandError::message` says of each failure.
pub open spec fn command_failure_message(f: CommandFailure) -> Seq<char> {
    match f {
        CommandFailure::SleepDurationZero => "Sleep duration must be greater than 0 seconds"@,
        CommandFailure::ProgressOutOfRange => "Progress must be between 0 and 100"@,
        CommandFailure::InvalidColor(c) => failure_message(c),
        CommandFailure::InvalidHexColor(m) => "Invalid color format: "@ + m,
        CommandFailure::InvalidIndicator => "Invalid indicator number. Use 1-3 or 'all'"@,
        CommandFailure::IndicatorOutOfRange => "Indicator number must be 1-3"@,
        CommandFailure::MissingColorOrOff => "Must specify either --color or --off"@,
        CommandFailure::KelvinOutOfRange => "Color temperature must be between 2000K and 6500K"@,
        CommandFailure::FpsTooHigh => "FPS must be 60 or less"@,
        CommandFailure::InvalidRtttl =>
            "Invalid RTTTL format. Expected format: 'name:d=4,o=5,b=140:notes'"@,
    }
}

impl CommandError {
    /// The failure in words.
    pub fn message(&self) -> (m: String)
        ensures
            m@ == command_failure_message(self@),
    {
        match self {
            CommandError::SleepDurationZero => String::from_str(
                "Sleep duration must be greater than 0 seconds",
            ),
            CommandError::ProgressOutOfRange => String::from_str(
                "Progress must be between 0 and 100",
            ),
            CommandError::InvalidColor(c) => c.message(),
            CommandError::InvalidHexColor(m) => String::from_str("Invalid color format: ").concat(
                m.as_str(),
            ),
            CommandError::InvalidIndicator => String::from_str(
                "Invalid indicator number. Use 1-3 or 'all'",
            ),
            CommandError::IndicatorOutOfRange => String::from_str("Indicator number must be 1-3"),
            CommandError::MissingColorOrOff => String::from_str(
                "Must specify either --color or --off",
            ),
            CommandError::KelvinOutOfRange => String::from_str(
                "Color temperature must be between 2000K and 6500K",
            ),
            CommandError::FpsTooHigh => String::from_str("FPS must be 60 or less"),
            CommandError::InvalidRtttl => String::from_str(
                "Invalid RTTTL format. Expected format: 'name:d=4,o=5,b=140:notes'",
            ),
        }
    }
}

} // verus!
