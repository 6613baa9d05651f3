//! Reading and writing single settings by key.
//!
//! The keys are a closed set. A key with a dot addresses a field of a
//! nested group; writing such a field brings the group into being, with
//! its other fields absent, if it was not there.

use vstd::prelude::*;
use vstd::string::StringExecFns;
use crate::models::color::{hex_text, lemma_to_hex_then_from_hex, Color};
use crate::models::settings::{
    DateAppSettings, DateAppSettingsView, Settings, SettingsView, TimeAppSettings,
};
use crate::text::{
    bool_text, chars_of, decimal_text, lemma_parse_bool_text, lemma_parse_decimal_text,
    parse_bool, parse_decimal_up_to, parse_unsigned, read_bool, render_bool, render_unsigned,
    same_text, text_of, texts_view,
};
use crate::utils::{
    failure_message, lowercase_of, parse_color_lowered, parse_color_with, to_lowercase,
    ColorParseError, ColorParseFailure,
};

verus! {

/// The settings that can be addressed by key.
#[derive(Debug, Clone, Copy, PartialEq, Eq, Structural)]
pub enum SettingKey {
    Brightness,
    AutoBrightness,
    AutoTransition,
    AppTime,
    Transition,
    TransitionTime,
    TextColor,
    TempUnit,
    ScrollSpeed,
    TimeAppFormat,
    TimeAppShowWeekday,
}

/// The setting that the key `name` addresses.
pub open spec fn key_named(name: Seq<char>) -> Option<SettingKey> {
    if name == "brightness"@ {
        Some(SettingKey::Brightness)
    } else if name == "auto_brightness"@ {
        Some(SettingKey::AutoBrightness)
    } else if name == "auto_transition"@ {
        Some(SettingKey::AutoTransition)
    } else if name == "app_time"@ {
        Some(SettingKey::AppTime)
    } else if name == "transition"@ {
        Some(SettingKey::Transition)
    } else if name == "transition_time"@ {
        Some(SettingKey::TransitionTime)
    } else if name == "text_color"@ {
        Some(SettingKey::TextColor)
    } else if name == "temp_unit"@ {
        Some(SettingKey::TempUnit)
    } else if name == "scroll_speed"@ {
        Some(SettingKey::ScrollSpeed)
    } else if name == "time_app.format"@ {
        Some(SettingKey::TimeAppFormat)
    } else if name == "time_app.show_weekday"@ {
        Some(SettingKey::TimeAppShowWeekday)
    } else {
        None
    }
}

/// Finds the setting that a key addresses.
pub fn setting_key(name: &str) -> (k: Option<SettingKey>)
    ensures
        k == key_named(name@),
{
    if same_text(name, "brightness") {
        Some(SettingKey::Brightness)
    } else if same_text(name, "auto_brightness") {
        Some(SettingKey::AutoBrightness)
    } else if same_text(name, "auto_transition") {
        Some(SettingKey::AutoTransition)
    } else if same_text(name, "app_time") {
        Some(SettingKey::AppTime)
    } else if same_text(name, "transition") {
        Some(SettingKey::Transition)
    } else if same_text(name, "transition_time") {
        Some(SettingKey::TransitionTime)
    } else if same_text(name, "text_color") {
        Some(SettingKey::TextColor)
    } else if same_text(name, "temp_unit") {
        Some(SettingKey::TempUnit)
    } else if same_text(name, "scroll_speed") {
        Some(SettingKey::ScrollSpeed)
    } else if same_text(name, "time_app.format") {
        Some(SettingKey::TimeAppFormat)
    } else if same_text(name, "time_app.show_weekday") {
        Some(SettingKey::TimeAppShowWeekday)
    } else {
        None
    }
}

/// Why a setting was not written.
#[derive(Debug)]
pub enum SettingError {
    /// The key addresses no setting; the payload is the key.
    UnknownKey(String),
    /// The brightness is no number from 0 to 255.
    InvalidBrightness,
    /// The value is neither `true` nor `false`.
    InvalidBoolean,
    /// The app time is no number.
    InvalidAppTime,
    /// The transition time is no number.
    InvalidTransitionTime,
    /// The scroll speed is no number.
    InvalidScrollSpeed,
    /// The time format is no number from 0 to 255.
    InvalidTimeFormat,
    /// The time format is a number above 5.
    TimeFormatOutOfRange,
    /// The text color is no color.
    InvalidColor(ColorParseError),
}

/// `SettingError` with its texts as sequences of characters.
pub enum SettingFailure {
    UnknownKey(Seq<char>),
    InvalidBrightness,
    InvalidBoolean,
    InvalidAppTime,
    InvalidTransitionTime,
    InvalidScrollSpeed,
    InvalidTimeFormat,
    TimeFormatOutOfRange,
    InvalidColor(ColorParseFailure),
}

impl View for SettingError {
    type V = SettingFailure;

    open spec fn view(&self) -> SettingFailure {
        match self {
            SettingError::UnknownKey(k) => SettingFailure::UnknownKey(k@),
            SettingError::InvalidBrightness => SettingFailure::InvalidBrightness,
            SettingError::InvalidBoolean => SettingFailure::InvalidBoolean,
            SettingError::InvalidAppTime => SettingFailure::InvalidAppTime,
            SettingError::InvalidTransitionTime => SettingFailure::InvalidTransitionTime,
            SettingError::InvalidScrollSpeed => SettingFailure::InvalidScrollSpeed,
            SettingError::InvalidTimeFormat => SettingFailure::InvalidTimeFormat,
            SettingError::TimeFormatOutOfRange => SettingFailure::TimeFormatOutOfRange,
            SettingError::InvalidColor(e) => SettingFailure::InvalidColor(e@),
        }
    }
}

/// The group `group`, or the group with every field absent where there
/// is none.
pub open spec fn time_app_or_empty(group: Option<TimeAppSettings>) -> TimeAppSettings {
    match group {
        Some(g) => g,
        None => TimeAppSettings::empty(),
    }
}

/// What writing `value` under `key` makes of the settings `s`: the new
/// settings, which differ from `s` in the addressed field alone, or the
/// reason why nothing was written. `lowered` is the lower-case form of
/// `value`, which only a color's name is read from.
pub open spec fn updated_with(
    s: SettingsView,
    key: Seq<char>,
    value: Seq<char>,
    lowered: Seq<char>,
) -> Result<SettingsView, SettingFailure> {
    match key_named(key) {
        None => Err(SettingFailure::UnknownKey(key)),
        Some(SettingKey::Brightness) => match parse_decimal_up_to(value, 255) {
            Some(n) => Ok(SettingsView { brightness: Some(n as u8), ..s }),
            None => Err(SettingFailure::InvalidBrightness),
        },
        Some(SettingKey::AutoBrightness) => match parse_bool(value) {
            Some(b) => Ok(SettingsView { auto_brightness: Some(b), ..s }),
            None => Err(SettingFailure::InvalidBoolean),
        },
        Some(SettingKey::AutoTransition) => match parse_bool(value) {
            Some(b) => Ok(SettingsView { auto_transition: Some(b), ..s }),
            None => Err(SettingFailure::InvalidBoolean),
        },
        Some(SettingKey::AppTime) => match parse_decimal_up_to(value, u32::MAX as nat) {
            Some(n) => Ok(SettingsView { app_time: Some(n as u32), ..s }),
            None => Err(SettingFailure::InvalidAppTime),
        },
        Some(SettingKey::Transition) => Ok(SettingsView { transition: Some(value), ..s }),
        Some(SettingKey::TransitionTime) => match parse_decimal_up_to(value, u32::MAX as nat) {
            Some(n) => Ok(SettingsView { transition_time: Some(n as u32), ..s }),
            None => Err(SettingFailure::InvalidTransitionTime),
        },
        Some(SettingKey::TextColor) => match parse_color_with(value, lowered) {
            Ok(c) => Ok(SettingsView { text_color: Some(c), ..s }),
            Err(f) => Err(SettingFailure::InvalidColor(f)),
        },
        Some(SettingKey::TempUnit) => Ok(SettingsView { temp_unit: Some(value), ..s }),
        Some(SettingKey::ScrollSpeed) => match parse_decimal_up_to(value, u32::MAX as nat) {
            Some(n) => Ok(SettingsView { scroll_speed: Some(n as u32), ..s }),
            None => Err(SettingFailure::InvalidScrollSpeed),
        },
        Some(SettingKey::TimeAppFormat) => match parse_decimal_up_to(value, 255) {
            None => Err(SettingFailure::InvalidTimeFormat),
            Some(n) => if n > 5 {
                Err(SettingFailure::TimeFormatOutOfRange)
            } else {
                Ok(
                    SettingsView {
                        time_app: Some(
                            TimeAppSettings {
                                format: Some(n as u8),
                                ..time_app_or_empty(s.time_app)
                            },
                        ),
                        ..s
                    },
                )
            },
        },
        Some(SettingKey::TimeAppShowWeekday) => match parse_bool(value) {
            Some(b) => Ok(
                SettingsView {
                    time_app: Some(
                        TimeAppSettings { show_weekday: Some(b), ..time_app_or_empty(s.time_app) },
                    ),
                    ..s
                },
            ),
            None => Err(SettingFailure::InvalidBoolean),
        },
    }
}

/// What writing `value` under `key` makes of the settings `s`.
pub open spec fn updated(s: SettingsView, key: Seq<char>, value: Seq<char>) -> Result<
    SettingsView,
    SettingFailure,
> {
    updated_with(s, key, value, lowercase_of(value))
}

/// The text under which `get_setting` shows the setting `key` of `s`, if
/// it is set: numbers in decimal, truth values as `true` and `false`,
/// colors in hexadecimal.
pub open spec fn setting_text(s: SettingsView, key: SettingKey) -> Option<Seq<char>> {
    match key {
        SettingKey::Brightness => match s.brightness {
            Some(n) => Some(decimal_text(n as nat)),
            None => None,
        },
        SettingKey::AutoBrightness => match s.auto_brightness {
            Some(b) => Some(bool_text(b)),
            None => None,
        },
        SettingKey::AutoTransition => match s.auto_transition {
            Some(b) => Some(bool_text(b)),
            None => None,
        },
        SettingKey::AppTime => match s.app_time {
            Some(n) => Some(decimal_text(n as nat)),
            None => None,
        },
        SettingKey::Transition => s.transition,
        SettingKey::TransitionTime => match s.transition_time {
            Some(n) => Some(decimal_text(n as nat)),
            None => None,
        },
        SettingKey::TextColor => match s.text_color {
            Some(c) => Some(hex_text(c)),
            None => None,
        },
        SettingKey::TempUnit => s.temp_unit,
        SettingKey::ScrollSpeed => match s.scroll_speed {
            Some(n) => Some(decimal_text(n as nat)),
            None => None,
        },
        SettingKey::TimeAppFormat => match s.time_app {
            Some(g) => match g.format {
                Some(n) => Some(decimal_text(n as nat)),
                None => None,
            },
            None => None,
        },
        SettingKey::TimeAppShowWeekday => match s.time_app {
            Some(g) => match g.show_weekday {
                Some(b) => Some(bool_text(b)),
                None => None,
            },
            None => None,
        },
    }
}

/// Reads a number of at most `max`.
fn read_number(value: &str, max: u32) -> (r: Option<u32>)
    ensures
        r is Some <==> parse_decimal_up_to(value@, max as nat) is Some,
        r matches Some(n) ==> parse_decimal_up_to(value@, max as nat) == Some(n as nat),
{
    let chars = chars_of(value);
    parse_unsigned(&chars, max)
}

/// Writes `value` under `key`. On failure the settings stay as they were.
pub fn update_setting(settings: &mut Settings, key: &str, value: &str) -> (r: Result<
    (),
    SettingError,
>)
    ensures
        match updated(old(settings)@, key@, value@) {
            Ok(s) => r is Ok && final(settings)@ == s,
            Err(f) => r is Err && r->Err_0@ == f && *final(settings) == *old(settings),
        },
        old(settings)@.well_formed() ==> final(settings)@.well_formed(),
{
    let lowered = to_lowercase(value);
    update_setting_lowered(settings, key, value, lowered.as_str())
}

/// Writes `value`, whose lower-case form is `lowered`, under `key`. On
/// failure the settings stay as they were.
pub fn update_setting_lowered(
    settings: &mut Settings,
    key: &str,
    value: &str,
    lowered: &str,
) -> (r: Result<(), SettingError>)
    ensures
        match updated_with(old(settings)@, key@, value@, lowered@) {
            Ok(s) => r is Ok && final(settings)@ == s,
            Err(f) => r is Err && r->Err_0@ == f && *final(settings) == *old(settings),
        },
        old(settings)@.well_formed() ==> final(settings)@.well_formed(),
{
    let k = match setting_key(key) {
        Some(k) => k,
        None => {
            return Err(SettingError::UnknownKey(String::from_str(key)));
        },
    };
    match k {
        SettingKey::Brightness => match read_number(value, 255) {
            Some(n) => {
                settings.brightness = Some(n as u8);
            },
            None => {
                return Err(SettingError::InvalidBrightness);
            },
        },
        SettingKey::AutoBrightness => match read_bool(value) {
            Some(b) => {
                settings.auto_brightness = Some(b);
            },
            None => {
                return Err(SettingError::InvalidBoolean);
            },
        },
        SettingKey::AutoTransition => match read_bool(value) {
            Some(b) => {
                settings.auto_transition = Some(b);
            },
            None => {
                return Err(SettingError::InvalidBoolean);
            },
        },
        SettingKey::AppTime => match read_number(value, u32::MAX) {
            Some(n) => {
                settings.app_time = Some(n);
            },
            None => {
                return Err(SettingError::InvalidAppTime);
            },
        },
        SettingKey::Transition => {
            settings.transition = Some(String::from_str(value));
        },
        SettingKey::TransitionTime => match read_number(value, u32::MAX) {
            Some(n) => {
                settings.transition_time = Some(n);
            },
            None => {
                return Err(SettingError::InvalidTransitionTime);
            },
        },
        SettingKey::TextColor => match parse_color_lowered(value, lowered) {
            Ok(c) => {
                settings.text_color = Some(c);
            },
            Err(e) => {
                return Err(SettingError::InvalidColor(e));
            },
        },
        SettingKey::TempUnit => {
            settings.temp_unit = Some(String::from_str(value));
        },
        SettingKey::ScrollSpeed => match read_number(value, u32::MAX) {
            Some(n) => {
                settings.scroll_speed = Some(n);
            },
            None => {
                return Err(SettingError::InvalidScrollSpeed);
            },
        },
        SettingKey::TimeAppFormat => match read_number(value, 255) {
            None => {
                return Err(SettingError::InvalidTimeFormat);
            },
            Some(n) => {
                if n > 5 {
                    return Err(SettingError::TimeFormatOutOfRange);
                }
                let mut group = match settings.time_app {
                    Some(g) => g,
                    None => TimeAppSettings::new(),
                };
                group.format = Some(n as u8);
                settings.time_app = Some(group);
            },
        },
        SettingKey::TimeAppShowWeekday => match read_bool(value) {
            Some(b) => {
                let mut group = match settings.time_app {
                    Some(g) => g,
                    None => TimeAppSettings::new(),
                };
                group.show_weekday = Some(b);
                settings.time_app = Some(group);
            },
            None => {
                return Err(SettingError::InvalidBoolean);
            },
        },
    }
    Ok(())
}


/// Renders an optional number.
fn number_text(value: Option<u32>) -> (r: Option<String>)
    ensures
        text_of(r) == opt_decimal(nat_of_u32(value)),
{
    match value {
        Some(n) => Some(render_unsigned(n as u64)),
        None => None,
    }
}

/// Renders an optional truth value.
fn truth_text(value: Option<bool>) -> (r: Option<String>)
    ensures
        text_of(r) == opt_bool_text(value),
{
    match value {
        Some(b) => Some(render_bool(b)),
        None => None,
    }
}

/// Copies an optional text.
fn copied_text(value: &Option<String>) -> (r: Option<String>)
    ensures
        text_of(r) == text_of(*value),
{
    match value {
        Some(t) => Some(t.clone()),
        None => None,
    }
}

/// Reads the setting under `key`: its text if it is set, `None` if it is
/// not. A key that addresses no setting is an `UnknownKey`.
pub fn get_setting(settings: &Settings, key: &str) -> (r: Result<Option<String>, SettingError>)
    ensures
        match key_named(key@) {
            Some(k) => r is Ok && text_of(r->Ok_0) == setting_text(settings@, k),
            None => r matches Err(SettingError::UnknownKey(name)) && name@ == key@,
        },
{
    let k = match setting_key(key) {
        Some(k) => k,
        None => {
            return Err(SettingError::UnknownKey(String::from_str(key)));
        },
    };
    let text = match k {
        SettingKey::Brightness => match settings.brightness {
            Some(n) => Some(render_unsigned(n as u64)),
            None => None,
        },
        SettingKey::AutoBrightness => truth_text(settings.auto_brightness),
        SettingKey::AutoTransition => truth_text(settings.auto_transition),
        SettingKey::AppTime => number_text(settings.app_time),
        SettingKey::Transition => copied_text(&settings.transition),
        SettingKey::TransitionTime => number_text(settings.transition_time),
        SettingKey::TextColor => match settings.text_color {
            Some(c) => Some(c.to_hex()),
            None => None,
        },
        SettingKey::TempUnit => copied_text(&settings.temp_unit),
        SettingKey::ScrollSpeed => number_text(settings.scroll_speed),
        SettingKey::TimeAppFormat => match settings.time_app {
            Some(g) => match g.format {
                Some(n) => Some(render_unsigned(n as u64)),
                None => None,
            },
            None => None,
        },
        SettingKey::TimeAppShowWeekday => match settings.time_app {
            Some(g) => truth_text(g.show_weekday),
            None => None,
        },
    };
    Ok(text)
}

/// The line that answers a request for the setting under `key`: its
/// text, or a remark that it is not set, or, as the error, a remark that
/// no such setting exists.
pub open spec fn setting_line(s: SettingsView, key: Seq<char>) -> Result<Seq<char>, Seq<char>> {
    match key_named(key) {
        Some(k) => match setting_text(s, k) {
            Some(t) => Ok(t),
            None => Ok("Setting '"@ + key + "' not set"@),
        },
        None => Err("Unknown setting key: "@ + key),
    }
}

/// The line that answers a request for the setting under `key`.
pub fn describe_setting(settings: &Settings, key: &str) -> (r: Result<String, String>)
    ensures
        match setting_line(settings@, key@) {
            Ok(t) => r is Ok && r->Ok_0@ == t,
            Err(t) => r is Err && r->Err_0@ == t,
        },
{
    match get_setting(settings, key) {
        Ok(Some(t)) => Ok(t),
        Ok(None) => Ok(String::from_str("Setting '").concat(key).concat("' not set")),
        Err(_) => Err(String::from_str("Unknown setting key: ").concat(key)),
    }
}

/// What `SettingError::message` says of each failure.
pub open spec fn setting_failure_message(f: SettingFailure) -> Seq<char> {
    match f {
        SettingFailure::UnknownKey(k) => "Unknown setting key: "@ + k
            + ". Use 'settings list' to see available settings"@,
        SettingFailure::InvalidBrightness => "Invalid brightness value. Must be 0-255"@,
        SettingFailure::InvalidBoolean => "Invalid boolean value. Use 'true' or 'false'"@,
        SettingFailure::InvalidAppTime => "Invalid app_time value. Must be a positive number"@,
        SettingFailure::InvalidTransitionTime =>
            "Invalid transition_time value. Must be a positive number"@,
        SettingFailure::InvalidScrollSpeed =>
            "Invalid scroll_speed value. Must be a positive number"@,
        SettingFailure::InvalidTimeFormat => "Invalid time format. Must be 0-5"@,
        SettingFailure::TimeFormatOutOfRange => "Time format must be 0-5"@,
        SettingFailure::InvalidColor(c) => failure_message(c),
    }
}

impl SettingError {
    /// The failure in words.
    pub fn message(&self) -> (m: String)
        ensures
            m@ == setting_failure_message(self@),
    {
        match self {
            SettingError::UnknownKey(k) => String::from_str("Unknown setting key: ").concat(
                k.as_str(),
            ).concat(". Use 'settings list' to see available settings"),
            SettingError::InvalidBrightness => String::from_str(
                "Invalid brightness value. Must be 0-255",
            ),
            SettingError::InvalidBoolean => String::from_str(
                "Invalid boolean value. Use 'true' or 'false'",
            ),
            SettingError::InvalidAppTime => String::from_str(
                "Invalid app_time value. Must be a positive number",
            ),
            SettingError::InvalidTransitionTime => String::from_str(
                "Invalid transition_time value. Must be a positive number",
            ),
            SettingError::InvalidScrollSpeed => String::from_str(
                "Invalid scroll_speed value. Must be a positive number",
            ),
            SettingError::InvalidTimeFormat => String::from_str("Invalid time format. Must be 0-5"),
            SettingError::TimeFormatOutOfRange => String::from_str("Time format must be 0-5"),
            SettingError::InvalidColor(c) => c.message(),
        }
    }
}

/// The text under which a value written under `key` reads back: a number
/// in decimal without sign or leading zeros, a color in hexadecimal, a
/// truth value or a text as it was given.
pub open spec fn canonical_value(key: SettingKey, value: Seq<char>, lowered: Seq<char>) -> Seq<
    char,
> {
    match key {
        SettingKey::Brightness | SettingKey::TimeAppFormat => decimal_text(
            parse_decimal_up_to(value, 255)->0,
        ),
        SettingKey::AppTime | SettingKey::TransitionTime | SettingKey::ScrollSpeed => decimal_text(
            parse_decimal_up_to(value, u32::MAX as nat)->0,
        ),
        SettingKey::TextColor => hex_text(parse_color_with(value, lowered)->Ok_0),
        _ => value,
    }
}

/// A setting that was written reads back, under the same key, as the
/// canonical text of the value written.
pub proof fn lemma_update_then_get(
    s: SettingsView,
    key: Seq<char>,
    value: Seq<char>,
    lowered: Seq<char>,
)
    requires
        updated_with(s, key, value, lowered) is Ok,
    ensures
        key_named(key) is Some,
        setting_text(updated_with(s, key, value, lowered)->Ok_0, key_named(key)->0) == Some(
            canonical_value(key_named(key)->0, value, lowered),
        ),
{
    reveal_strlit("true");
    reveal_strlit("false");
}

/// Writing a field of the time app where the settings hold no such group
/// brings the group into being with that field alone.
pub proof fn lemma_nested_key_materializes(
    s: SettingsView,
    key: Seq<char>,
    value: Seq<char>,
    lowered: Seq<char>,
)
    requires
        s.time_app is None,
        updated_with(s, key, value, lowered) is Ok,
        key_named(key) == Some(SettingKey::TimeAppFormat) || key_named(key) == Some(
            SettingKey::TimeAppShowWeekday,
        ),
    ensures
        ({
            let after = updated_with(s, key, value, lowered)->Ok_0;
            &&& after == (SettingsView { time_app: after.time_app, ..s })
            &&& key_named(key) == Some(SettingKey::TimeAppFormat) ==> after.time_app == Some(
                TimeAppSettings {
                    format: Some(parse_decimal_up_to(value, 255)->0 as u8),
                    ..TimeAppSettings::empty()
                },
            )
            &&& key_named(key) == Some(SettingKey::TimeAppShowWeekday) ==> after.time_app == Some(
                TimeAppSettings { show_weekday: parse_bool(value), ..TimeAppSettings::empty() },
            )
        }),
{
}

/// A time format above 5 is refused, whatever the settings hold.
pub proof fn lemma_time_format_range(
    s: SettingsView,
    key: Seq<char>,
    value: Seq<char>,
    lowered: Seq<char>,
)
    requires
        key_named(key) == Some(SettingKey::TimeAppFormat),
    ensures
        updated_with(s, key, value, lowered) is Ok <==> parse_decimal_up_to(value, 5) is Some,
        parse_decimal_up_to(value, 255) is Some && parse_decimal_up_to(value, 5) is None
            ==> updated_with(s, key, value, lowered) == Err::<SettingsView, SettingFailure>(
            SettingFailure::TimeFormatOutOfRange,
        ),
{
}

/// A key that addresses no setting can be neither written nor read.
pub proof fn lemma_unknown_key(
    s: SettingsView,
    key: Seq<char>,
    value: Seq<char>,
    lowered: Seq<char>,
)
    requires
        key_named(key) is None,
    ensures
        updated_with(s, key, value, lowered) == Err::<SettingsView, SettingFailure>(
            SettingFailure::UnknownKey(key),
        ),
        setting_line(s, key) is Err,
{
}

/// The key under which each setting goes.
pub open spec fn key_name(key: SettingKey) -> Seq<char> {
    match key {
        SettingKey::Brightness => "brightness"@,
        SettingKey::AutoBrightness => "auto_brightness"@,
        SettingKey::AutoTransition => "auto_transition"@,
        SettingKey::AppTime => "app_time"@,
        SettingKey::Transition => "transition"@,
        SettingKey::TransitionTime => "transition_time"@,
        SettingKey::TextColor => "text_color"@,
        SettingKey::TempUnit => "temp_unit"@,
        SettingKey::ScrollSpeed => "scroll_speed"@,
        SettingKey::TimeAppFormat => "time_app.format"@,
        SettingKey::TimeAppShowWeekday => "time_app.show_weekday"@,
    }
}

/// Each setting is found under its own key.
pub proof fn lemma_key_names(key: SettingKey)
    ensures
        key_named(key_name(key)) == Some(key),
{
    reveal_strlit("brightness");
    reveal_strlit("auto_brightness");
    reveal_strlit("auto_transition");
    reveal_strlit("app_time");
    reveal_strlit("transition");
    reveal_strlit("transition_time");
    reveal_strlit("text_color");
    reveal_strlit("temp_unit");
    reveal_strlit("scroll_speed");
    reveal_strlit("time_app.format");
    reveal_strlit("time_app.show_weekday");
    assert("brightness"@.len() == 10 && "transition"@.len() == 10 && "text_color"@.len() == 10);
    assert("auto_brightness"@.len() == 15 && "auto_transition"@.len() == 15);
    assert("transition_time"@.len() == 15 && "time_app.format"@.len() == 15);
    assert("app_time"@.len() == 8 && "temp_unit"@.len() == 9 && "scroll_speed"@.len() == 12);
    assert("time_app.show_weekday"@.len() == 21);
    assert("brightness"@[0] == 'b' && "transition"@[0] == 't' && "text_color"@[0] == 't');
    assert("transition"@[1] == 'r' && "text_color"@[1] == 'e');
    assert("auto_brightness"@[0] == 'a' && "auto_transition"@[0] == 'a');
    assert("transition_time"@[0] == 't' && "time_app.format"@[0] == 't');
    assert("auto_brightness"@[5] == 'b' && "auto_transition"@[5] == 't');
    assert("transition_time"@[1] == 'r' && "time_app.format"@[1] == 'i');
}


/// Writing a setting keeps well-formed settings well formed.
pub proof fn lemma_update_keeps_well_formed(
    s: SettingsView,
    key: Seq<char>,
    value: Seq<char>,
    lowered: Seq<char>,
)
    requires
        s.well_formed(),
        updated_with(s, key, value, lowered) is Ok,
    ensures
        updated_with(s, key, value, lowered)->Ok_0.well_formed(),
{
}

/// The line of a report for a value: the value between what stands
/// before and after it, or no line where there is no value.
pub open spec fn report_line(before: Seq<char>, value: Option<Seq<char>>, after: Seq<char>) -> Seq<
    Seq<char>,
> {
    match value {
        Some(v) => seq![before + v + after],
        None => Seq::empty(),
    }
}

/// The decimal notation of an optional number.
pub open spec fn opt_decimal(value: Option<nat>) -> Option<Seq<char>> {
    match value {
        Some(n) => Some(decimal_text(n)),
        None => None,
    }
}

/// The notation of an optional truth value.
pub open spec fn opt_bool_text(value: Option<bool>) -> Option<Seq<char>> {
    match value {
        Some(b) => Some(bool_text(b)),
        None => None,
    }
}

/// The hexadecimal notation of an optional color.
pub open spec fn opt_hex(value: Option<Color>) -> Option<Seq<char>> {
    match value {
        Some(c) => Some(hex_text(c)),
        None => None,
    }
}

/// An optional 8-bit number as a natural number.
pub open spec fn nat_of_u8(value: Option<u8>) -> Option<nat> {
    match value {
        Some(n) => Some(n as nat),
        None => None,
    }
}

/// An optional 32-bit number as a natural number.
pub open spec fn nat_of_u32(value: Option<u32>) -> Option<nat> {
    match value {
        Some(n) => Some(n as nat),
        None => None,
    }
}

/// The part of the report on the time app: nothing where the settings
/// hold no such group, and else a blank line, a heading and one line for
/// each field that is set.
pub open spec fn time_app_lines(group: Option<TimeAppSettings>) -> Seq<Seq<char>> {
    match group {
        None => Seq::empty(),
        Some(g) => seq![""@, "  Time App Settings:"@] + report_line(
            "    time_app.format: "@,
            opt_decimal(nat_of_u8(g.format)),
            ""@,
        ) + report_line("    time_app.show_weekday: "@, opt_bool_text(g.show_weekday), ""@)
            + report_line("    time_app.cal_header_color: "@, opt_hex(g.cal_header_color), ""@)
            + report_line("    time_app.cal_body_color: "@, opt_hex(g.cal_body_color), ""@)
            + report_line("    time_app.cal_text_color: "@, opt_hex(g.cal_text_color), ""@),
    }
}

/// The part of the report on the date app: nothing where the settings
/// hold no such group, and else a blank line, a heading and one line for
/// each field that is set.
pub open spec fn date_app_lines(group: Option<DateAppSettingsView>) -> Seq<Seq<char>> {
    match group {
        None => Seq::empty(),
        Some(g) => seq![""@, "  Date App Settings:"@] + report_line(
            "    date_app.enabled: "@,
            opt_bool_text(g.enabled),
            ""@,
        ) + report_line("    date_app.format: "@, g.format, ""@),
    }
}

/// The report on all settings: a heading, a blank line, one line for
/// each setting that is set, and the parts on the two groups.
pub open spec fn settings_lines(s: SettingsView) -> Seq<Seq<char>> {
    seq!["Current AWTRIX3 Settings:"@, ""@] + report_line(
        "  brightness: "@,
        opt_decimal(nat_of_u8(s.brightness)),
        " (0-255)"@,
    ) + report_line("  auto_brightness: "@, opt_bool_text(s.auto_brightness), ""@) + report_line(
        "  auto_transition: "@,
        opt_bool_text(s.auto_transition),
        ""@,
    ) + report_line("  app_time: "@, opt_decimal(nat_of_u32(s.app_time)), " seconds"@)
        + report_line("  transition: "@, s.transition, ""@) + report_line(
        "  transition_time: "@,
        opt_decimal(nat_of_u32(s.transition_time)),
        " ms"@,
    ) + report_line("  text_color: "@, opt_hex(s.text_color), ""@) + report_line(
        "  temp_unit: "@,
        s.temp_unit,
        ""@,
    ) + report_line("  scroll_speed: "@, opt_decimal(nat_of_u32(s.scroll_speed)), "%"@)
        + time_app_lines(s.time_app) + date_app_lines(s.date_app)
}

/// Adds the line for a value, if there is a value.
fn push_line(lines: &mut Vec<String>, before: &str, value: Option<String>, after: &str)
    ensures
        texts_view(final(lines)@) == texts_view(old(lines)@) + report_line(
            before@,
            text_of(value),
            after@,
        ),
{
    if let Some(v) = value {
        lines.push(String::from_str(before).concat(v.as_str()).concat(after));
    }
}

/// Adds a line as it is.
fn push_text(lines: &mut Vec<String>, text: &str)
    ensures
        texts_view(final(lines)@) == texts_view(old(lines)@).push(text@),
{
    lines.push(String::from_str(text));
}

/// Renders an optional 8-bit number.
fn small_number_text(value: Option<u8>) -> (r: Option<String>)
    ensures
        text_of(r) == opt_decimal(nat_of_u8(value)),
{
    match value {
        Some(n) => Some(render_unsigned(n as u64)),
        None => None,
    }
}

/// Renders an optional color.
fn color_text(value: Option<Color>) -> (r: Option<String>)
    ensures
        text_of(r) == opt_hex(value),
{
    match value {
        Some(c) => Some(c.to_hex()),
        None => None,
    }
}

/// Adds the part of the report on the time app.
fn push_time_app(lines: &mut Vec<String>, group: &Option<TimeAppSettings>)
    ensures
        texts_view(final(lines)@) == texts_view(old(lines)@) + time_app_lines(*group),
{
    if let Some(g) = group {
        push_text(lines, "");
        push_text(lines, "  Time App Settings:");
        push_line(lines, "    time_app.format: ", small_number_text(g.format), "");
        push_line(lines, "    time_app.show_weekday: ", truth_text(g.show_weekday), "");
        push_line(lines, "    time_app.cal_header_color: ", color_text(g.cal_header_color), "");
        push_line(lines, "    time_app.cal_body_color: ", color_text(g.cal_body_color), "");
        push_line(lines, "    time_app.cal_text_color: ", color_text(g.cal_text_color), "");
    }
}

/// Adds the part of the report on the date app.
fn push_date_app(lines: &mut Vec<String>, group: &Option<DateAppSettings>)
    ensures
        texts_view(final(lines)@) == texts_view(old(lines)@) + date_app_lines(
            match *group {
                Some(g) => Some(g@),
                None => None,
            },
        ),
{
    if let Some(g) = group {
        push_text(lines, "");
        push_text(lines, "  Date App Settings:");
        push_line(lines, "    date_app.enabled: ", truth_text(g.enabled), "");
        push_line(lines, "    date_app.format: ", copied_text(&g.format), "");
    }
}

/// The report on all settings, line by line.
pub fn settings_report(settings: &Settings) -> (lines: Vec<String>)
    ensures
        texts_view(lines@) == settings_lines(settings@),
{
    let mut lines: Vec<String> = Vec::new();
    push_text(&mut lines, "Current AWTRIX3 Settings:");
    push_text(&mut lines, "");
    assert(texts_view(lines@) =~= seq!["Current AWTRIX3 Settings:"@, ""@]);
    push_line(&mut lines, "  brightness: ", small_number_text(settings.brightness), " (0-255)");
    push_line(&mut lines, "  auto_brightness: ", truth_text(settings.auto_brightness), "");
    push_line(&mut lines, "  auto_transition: ", truth_text(settings.auto_transition), "");
    push_line(&mut lines, "  app_time: ", number_text(settings.app_time), " seconds");
    push_line(&mut lines, "  transition: ", copied_text(&settings.transition), "");
    push_line(&mut lines, "  transition_time: ", number_text(settings.transition_time), " ms");
    push_line(&mut lines, "  text_color: ", color_text(settings.text_color), "");
    push_line(&mut lines, "  temp_unit: ", copied_text(&settings.temp_unit), "");
    push_line(&mut lines, "  scroll_speed: ", number_text(settings.scroll_speed), "%");
    push_time_app(&mut lines, &settings.time_app);
    push_date_app(&mut lines, &settings.date_app);
    lines
}


/// A setting that is set writes back from the text under which it reads:
/// writing that text under the same key leaves well-formed settings as
/// they are.
pub proof fn lemma_get_then_update(s: SettingsView, key: SettingKey, lowered: Seq<char>)
    requires
        s.well_formed(),
        setting_text(s, key) is Some,
    ensures
        updated_with(s, key_name(key), setting_text(s, key)->0, lowered) == Ok::<
            SettingsView,
            SettingFailure,
        >(s),
{
    lemma_key_names(key);
    match key {
        SettingKey::Brightness => {
            lemma_parse_decimal_text(s.brightness->0 as nat);
        },
        SettingKey::AutoBrightness => {
            lemma_parse_bool_text(s.auto_brightness->0);
        },
        SettingKey::AutoTransition => {
            lemma_parse_bool_text(s.auto_transition->0);
        },
        SettingKey::AppTime => {
            lemma_parse_decimal_text(s.app_time->0 as nat);
        },
        SettingKey::Transition => {},
        SettingKey::TransitionTime => {
            lemma_parse_decimal_text(s.transition_time->0 as nat);
        },
        SettingKey::TextColor => {
            lemma_to_hex_then_from_hex(s.text_color->0);
        },
        SettingKey::TempUnit => {},
        SettingKey::ScrollSpeed => {
            lemma_parse_decimal_text(s.scroll_speed->0 as nat);
        },
        SettingKey::TimeAppFormat => {
            lemma_parse_decimal_text(s.time_app->0.format->0 as nat);
        },
        SettingKey::TimeAppShowWeekday => {
            lemma_parse_bool_text(s.time_app->0.show_weekday->0);
        },
    }
}

} // verus!
