//! The arguments of the commands whose rules are decided in this
//! library, as plain values.

use vstd::prelude::*;

verus! {

/// The arguments of the power command.
#[derive(Debug, Clone, Copy)]
pub struct PowerArgs {
    /// The state to put the matrix in.
    pub state: PowerState,
}

/// The two states of the matrix.
#[derive(Debug, Clone, Copy, PartialEq, Eq, Structural)]
pub enum PowerState {
    On,
    Off,
}

/// The arguments of the sleep command.
#[derive(Debug, Clone, Copy)]
pub struct SleepArgs {
    /// How long to sleep, in seconds.
    pub duration: u32,
}

/// The arguments of the notify command.
#[derive(Debug, Clone)]
pub struct NotifyArgs {
    /// The text of the notification.
    pub text: String,
    /// The id of the icon.
    pub icon: Option<u32>,
    /// The color of the text, in any notation that `parse_color` reads.
    pub color: Option<String>,
    /// How long to show the notification, in seconds.
    pub duration: Option<u32>,
    /// The sound to play.
    pub sound: Option<String>,
    /// The progress bar, from 0 to 100.
    pub progress: Option<u8>,
    /// Whether the notification stays until dismissed.
    pub hold: bool,
    /// Whether the notification wakes the display.
    pub wakeup: bool,
    /// Whether the notification queues behind the one on display.
    pub stack: bool,
    /// Whether the text stands still.
    pub no_scroll: bool,
    /// A file to read the notification from.
    pub file: Option<String>,
    /// Whether to dismiss the notification on display.
    pub dismiss: bool,
}

/// The arguments of the indicator command.
#[derive(Debug, Clone)]
pub struct IndicatorArgs {
    /// The number of the indicator, from 1 to 3, or `all`.
    pub indicator: String,
    /// The color, in any notation that `parse_color` reads.
    pub color: Option<String>,
    /// Whether to switch the indicator off.
    pub off: bool,
}

} // verus!
