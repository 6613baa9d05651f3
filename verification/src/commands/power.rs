//! Power and sleep.

use vstd::prelude::*;
use crate::cli::args::{PowerArgs, PowerState, SleepArgs};
use crate::commands::CommandError;

verus! {

/// Whether the arguments ask for the matrix to be on.
pub fn power_on(args: &PowerArgs) -> (on: bool)
    ensures
        on == (args.state == PowerState::On),
{
    match args.state {
        PowerState::On => true,
        PowerState::Off => false,
    }
}

/// The time to sleep, in seconds, which must not be zero.
pub fn sleep(args: &SleepArgs) -> (r: Result<u32, CommandError>)
    ensures
        args.duration > 0 ==> r == Ok::<u32, CommandError>(args.duration),
        args.duration == 0 ==> r is Err && r->Err_0 is SleepDurationZero,
{
    if args.duration == 0 {
        Err(CommandError::SleepDurationZero)
    } else {
        Ok(args.duration)
    }
}

} // verus!
