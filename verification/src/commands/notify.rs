//! Notifications from the command line.

use vstd::prelude::*;
use crate::cli::args::NotifyArgs;
use crate::commands::{CommandError, CommandFailure};
use crate::models::color::Color;
use crate::models::notification::{Notification, NotificationView};
use crate::text::text_of;
use crate::utils::{lowercase_of, parse_color, parse_color_with, ColorParseFailure};

verus! {

/// The color that the arguments give, if they give one.
pub open spec fn color_argument(color: Option<Seq<char>>) -> Result<
    Option<Color>,
    ColorParseFailure,
> {
    match color {
        Some(text) => match parse_color_with(text, lowercase_of(text)) {
            Ok(c) => Ok(Some(c)),
            Err(f) => Err(f),
        },
        None => Ok(None),
    }
}

/// `Some(true)` for a flag that is set, and nothing for one that is not.
pub open spec fn flag(set: bool) -> Option<bool> {
    if set {
        Some(true)
    } else {
        None
    }
}

/// Reads the color that the arguments give.
pub fn read_color_argument(color: &Option<String>) -> (r: Result<Option<Color>, CommandError>)
    ensures
        match color_argument(text_of(*color)) {
            Ok(c) => r == Ok::<Option<Color>, CommandError>(c),
            Err(f) => r is Err && r->Err_0@ == CommandFailure::InvalidColor(f),
        },
{
    match color {
        Some(text) => match parse_color(text.as_str()) {
            Ok(c) => Ok(Some(c)),
            Err(e) => Err(CommandError::InvalidColor(e)),
        },
        None => Ok(None),
    }
}

/// The notification that the arguments describe, given the color that
/// they give: the text always, the icon, the duration, the sound and the
/// progress where given, and the two flags where set. Nothing else is
/// filled in. A progress above 100 is refused, not clamped.
pub open spec fn notification_from(
    text: Seq<char>,
    icon: Option<u32>,
    color: Option<Color>,
    duration: Option<u32>,
    sound: Option<Seq<char>>,
    progress: Option<u8>,
    hold: bool,
    wakeup: bool,
) -> Result<NotificationView, CommandFailure> {
    if progress is Some && progress->0 > 100 {
        Err(CommandFailure::ProgressOutOfRange)
    } else {
        Ok(
            NotificationView {
                text: Some(text),
                icon,
                color,
                duration,
                sound,
                progress,
                hold: flag(hold),
                wakeup: flag(wakeup),
                ..NotificationView::empty()
            },
        )
    }
}

/// Builds the notification that the arguments describe. The color is
/// read first, so a color that is none is reported before a progress
/// that is out of range.
pub fn build_notification_from_args(args: NotifyArgs) -> (r: Result<Notification, CommandError>)
    ensures
        match color_argument(text_of(args.color)) {
            Err(f) => r is Err && r->Err_0@ == CommandFailure::InvalidColor(f),
            Ok(color) => match notification_from(
                args.text@,
                args.icon,
                color,
                args.duration,
                text_of(args.sound),
                args.progress,
                args.hold,
                args.wakeup,
            ) {
                Ok(n) => r is Ok && r->Ok_0@ == n && n.well_formed(),
                Err(f) => r is Err && r->Err_0@ == f,
            },
        },
{
    let mut builder = Notification::builder();
    builder = builder.text(args.text.as_str());
    if let Some(icon) = args.icon {
        builder = builder.icon(icon);
    }
    if let Some(color) = read_color_argument(&args.color)? {
        builder = builder.color(color);
    }
    if let Some(duration) = args.duration {
        builder = builder.duration(duration);
    }
    if let Some(sound) = &args.sound {
        builder = builder.sound(sound.as_str());
    }
    if let Some(progress) = args.progress {
        if progress > 100 {
            return Err(CommandError::ProgressOutOfRange);
        }
        builder = builder.progress(progress);
    }
    if args.hold {
        builder = builder.hold(true);
    }
    if args.wakeup {
        builder = builder.wakeup(true);
    }
    Ok(builder.build())
}

} // verus!
