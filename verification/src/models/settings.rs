//! Device settings. Every field is optional: an absent field is one that
//! is not sent and so not overridden, which is not the same as a default.

use vstd::prelude::*;
use crate::error::{is_schema_error, is_syntax_error, AwtrixError, SerializationError};
use crate::json::{json_document, json_text};
use vstd::string::StringExecFns;
use crate::json::{lookup, members_view, Json, JsonView};
use crate::models::color::Color;
use crate::text::text_of;
use crate::wire::{
    bool_json, distinct_keys, encode_bool, encode_color, encode_text, encode_u32, encode_u8,
    field_bool, field_color, field_text, field_u32, field_u8, fields_view, find_once, get_bool,
    get_color, get_text, get_u32, get_u8, is_absent, lemma_color_wire_forms_agree,
    lemma_lookup_field, members_of, members_of_object, object_of, opt_color_json, repeated,
    text_json, u32_json, u8_json, view_of, DecodeError, DecodeFailure, Field,
};

verus! {

/// Settings of the built-in time app.
#[derive(Debug, Clone, Copy)]
pub struct TimeAppSettings {
    /// The time format, from 0 to 5.
    pub format: Option<u8>,
    /// Whether the weekday is shown.
    pub show_weekday: Option<bool>,
    /// The color of the calendar's header.
    pub cal_header_color: Option<Color>,
    /// The color of the calendar's body.
    pub cal_body_color: Option<Color>,
    /// The color of the calendar's text.
    pub cal_text_color: Option<Color>,
}

impl TimeAppSettings {
    /// The group with every field absent.
    pub open spec fn empty() -> TimeAppSettings {
        TimeAppSettings {
            format: None,
            show_weekday: None,
            cal_header_color: None,
            cal_body_color: None,
            cal_text_color: None,
        }
    }

    /// The group with every field absent.
    pub fn new() -> (t: TimeAppSettings)
        ensures
            t == TimeAppSettings::empty(),
    {
        TimeAppSettings {
            format: None,
            show_weekday: None,
            cal_header_color: None,
            cal_body_color: None,
            cal_text_color: None,
        }
    }
}

/// Settings of the built-in date app.
#[derive(Debug, Clone)]
pub struct DateAppSettings {
    /// Whether the date is shown.
    pub enabled: Option<bool>,
    /// The date format.
    pub format: Option<String>,
}

/// `DateAppSettings` with its text as a sequence of characters.
pub struct DateAppSettingsView {
    pub enabled: Option<bool>,
    pub format: Option<Seq<char>>,
}

impl View for DateAppSettings {
    type V = DateAppSettingsView;

    open spec fn view(&self) -> DateAppSettingsView {
        DateAppSettingsView { enabled: self.enabled, format: text_of(self.format) }
    }
}

/// The settings of a device.
#[derive(Debug, Clone)]
pub struct Settings {
    /// The brightness of the matrix.
    pub brightness: Option<u8>,
    /// Whether the brightness follows the light sensor.
    pub auto_brightness: Option<bool>,
    /// Whether the loop moves on by itself.
    pub auto_transition: Option<bool>,
    /// How long each app stays on display, in seconds.
    pub app_time: Option<u32>,
    /// The name of the transition effect.
    pub transition: Option<String>,
    /// How long a transition takes, in milliseconds.
    pub transition_time: Option<u32>,
    /// The color of text where an app sets none.
    pub text_color: Option<Color>,
    /// Settings of the time app.
    pub time_app: Option<TimeAppSettings>,
    /// Settings of the date app.
    pub date_app: Option<DateAppSettings>,
    /// The unit of temperature.
    pub temp_unit: Option<String>,
    /// The scroll speed, in percent; no upper limit is enforced here.
    pub scroll_speed: Option<u32>,
}

/// `Settings` with its texts as sequences of characters.
pub struct SettingsView {
    pub brightness: Option<u8>,
    pub auto_brightness: Option<bool>,
    pub auto_transition: Option<bool>,
    pub app_time: Option<u32>,
    pub transition: Option<Seq<char>>,
    pub transition_time: Option<u32>,
    pub text_color: Option<Color>,
    pub time_app: Option<TimeAppSettings>,
    pub date_app: Option<DateAppSettingsView>,
    pub temp_unit: Option<Seq<char>>,
    pub scroll_speed: Option<u32>,
}

impl View for Settings {
    type V = SettingsView;

    open spec fn view(&self) -> SettingsView {
        SettingsView {
            brightness: self.brightness,
            auto_brightness: self.auto_brightness,
            auto_transition: self.auto_transition,
            app_time: self.app_time,
            transition: text_of(self.transition),
            transition_time: self.transition_time,
            text_color: self.text_color,
            time_app: self.time_app,
            date_app: match self.date_app {
                Some(d) => Some(d@),
                None => None,
            },
            temp_unit: text_of(self.temp_unit),
            scroll_speed: self.scroll_speed,
        }
    }
}

impl TimeAppSettings {
    /// Whether the time format, if set, is one of the formats 0 to 5.
    pub open spec fn well_formed(self) -> bool {
        self.format matches Some(n) ==> n <= 5
    }
}

impl SettingsView {
    /// Whether the settings hold what a device can take: a time format,
    /// if set, from 0 to 5.
    pub open spec fn well_formed(self) -> bool {
        self.time_app matches Some(g) ==> g.well_formed()
    }

    /// The settings with every field absent.
    pub open spec fn empty() -> SettingsView {
        SettingsView {
            brightness: None,
            auto_brightness: None,
            auto_transition: None,
            app_time: None,
            transition: None,
            transition_time: None,
            text_color: None,
            time_app: None,
            date_app: None,
            temp_unit: None,
            scroll_speed: None,
        }
    }
}

impl Settings {
    /// The settings with every field absent.
    pub fn new() -> (s: Settings)
        ensures
            s@ == SettingsView::empty(),
            s@.well_formed(),
    {
        Settings {
            brightness: None,
            auto_brightness: None,
            auto_transition: None,
            app_time: None,
            transition: None,
            transition_time: None,
            text_color: None,
            time_app: None,
            date_app: None,
            temp_unit: None,
            scroll_speed: None,
        }
    }
}

impl Default for Settings {
    fn default() -> (s: Settings)
        ensures
            s@ == SettingsView::empty(),
    {
        Settings::new()
    }
}


/// The fields of the time app's settings on the wire.
pub open spec fn time_app_fields(g: TimeAppSettings) -> Seq<Field> {
    seq![
        ("format"@, u8_json(g.format)),
        ("showWeekday"@, bool_json(g.show_weekday)),
        ("calHeaderColor"@, opt_color_json(g.cal_header_color)),
        ("calBodyColor"@, opt_color_json(g.cal_body_color)),
        ("calTextColor"@, opt_color_json(g.cal_text_color)),
    ]
}

/// The wire form of the time app's settings.
pub open spec fn time_app_json(g: TimeAppSettings) -> JsonView {
    JsonView::Object(members_of(time_app_fields(g)))
}

/// The optional time format that an object holds under `format`: a
/// number from 0 to 5.
pub open spec fn field_time_format(members: Seq<(Seq<char>, JsonView)>) -> Result<
    Option<u8>,
    DecodeFailure,
> {
    match field_u8(members, "format"@) {
        Ok(Some(n)) => if n <= 5 {
            Ok(Some(n))
        } else {
            Err(DecodeFailure::Invalid("format"@))
        },
        other => other,
    }
}

/// The settings of the time app that a document holds.
pub open spec fn time_app_of(json: JsonView) -> Result<TimeAppSettings, DecodeFailure> {
    match json {
        JsonView::Object(m) => {
            let format = field_time_format(m);
            let show_weekday = field_bool(m, "showWeekday"@);
            let cal_header_color = field_color(m, "calHeaderColor"@);
            let cal_body_color = field_color(m, "calBodyColor"@);
            let cal_text_color = field_color(m, "calTextColor"@);
            if format is Err {
                Err(format->Err_0)
            } else if show_weekday is Err {
                Err(show_weekday->Err_0)
            } else if cal_header_color is Err {
                Err(cal_header_color->Err_0)
            } else if cal_body_color is Err {
                Err(cal_body_color->Err_0)
            } else if cal_text_color is Err {
                Err(cal_text_color->Err_0)
            } else {
                Ok(
                    TimeAppSettings {
                        format: format->Ok_0,
                        show_weekday: show_weekday->Ok_0,
                        cal_header_color: cal_header_color->Ok_0,
                        cal_body_color: cal_body_color->Ok_0,
                        cal_text_color: cal_text_color->Ok_0,
                    },
                )
            }
        },
        _ => Err(DecodeFailure::NotAnObject),
    }
}

impl TimeAppSettings {
    /// The wire form of the group.
    pub fn to_json(&self) -> (json: Json)
        ensures
            json@ == time_app_json(*self),
    {
        let fields = vec![
            ("format", encode_u8(self.format)),
            ("showWeekday", encode_bool(self.show_weekday)),
            ("calHeaderColor", encode_color(self.cal_header_color)),
            ("calBodyColor", encode_color(self.cal_body_color)),
            ("calTextColor", encode_color(self.cal_text_color)),
        ];
        assert(fields_view(fields@) =~= time_app_fields(*self));
        object_of(fields)
    }

    /// Reads the group from its wire form.
    pub fn from_json(json: &Json) -> (r: Result<TimeAppSettings, DecodeError>)
        ensures
            match time_app_of(json@) {
                Ok(g) => r == Ok::<TimeAppSettings, DecodeError>(g) && g.well_formed(),
                Err(f) => r is Err && r->Err_0@ == f,
            },
    {
        let m = members_of_object(json)?;
        let format = get_u8(m, "format")?;
        match format {
            Some(n) => if n > 5 {
                return Err(DecodeError::Invalid(String::from_str("format")));
            },
            None => {},
        }
        let show_weekday = get_bool(m, "showWeekday")?;
        let cal_header_color = get_color(m, "calHeaderColor")?;
        let cal_body_color = get_color(m, "calBodyColor")?;
        let cal_text_color = get_color(m, "calTextColor")?;
        Ok(
            TimeAppSettings {
                format,
                show_weekday,
                cal_header_color,
                cal_body_color,
                cal_text_color,
            },
        )
    }
}

/// The settings of the time app read back from their wire form as they
/// were.
pub proof fn lemma_time_app_round_trip(g: TimeAppSettings)
    requires
        g.well_formed(),
    ensures
        time_app_of(time_app_json(g)) == Ok::<TimeAppSettings, DecodeFailure>(g),
{
    let fields = time_app_fields(g);
    reveal_strlit("format");
    reveal_strlit("showWeekday");
    reveal_strlit("calHeaderColor");
    reveal_strlit("calBodyColor");
    reveal_strlit("calTextColor");
    assert("format"@.len() == 6 && "showWeekday"@.len() == 11 && "calHeaderColor"@.len() == 14);
    assert("calBodyColor"@.len() == 12 && "calTextColor"@.len() == 12);
    assert("calBodyColor"@[3] == 'B' && "calTextColor"@[3] == 'T');
    assert(distinct_keys(fields));
    assert forall|i: int| 0 <= i < 5 implies lookup(members_of(fields), #[trigger] fields[i].0)
        == fields[i].1 && !repeated(
        members_of(fields),
        fields[i].0,
    ) by {
        lemma_lookup_field(fields, i);
    }
    if g.cal_header_color is Some {
        lemma_color_wire_forms_agree(g.cal_header_color->0);
    }
    if g.cal_body_color is Some {
        lemma_color_wire_forms_agree(g.cal_body_color->0);
    }
    if g.cal_text_color is Some {
        lemma_color_wire_forms_agree(g.cal_text_color->0);
    }
    assert(fields[0].0 == "format"@ && fields[1].0 == "showWeekday"@);
    assert(fields[2].0 == "calHeaderColor"@ && fields[3].0 == "calBodyColor"@);
    assert(fields[4].0 == "calTextColor"@);
}

/// The fields of the date app's settings on the wire.
pub open spec fn date_app_fields(g: DateAppSettingsView) -> Seq<Field> {
    seq![("enabled"@, bool_json(g.enabled)), ("format"@, text_json(g.format))]
}

/// The wire form of the date app's settings.
pub open spec fn date_app_json(g: DateAppSettingsView) -> JsonView {
    JsonView::Object(members_of(date_app_fields(g)))
}

/// The settings of the date app that a document holds.
pub open spec fn date_app_of(json: JsonView) -> Result<DateAppSettingsView, DecodeFailure> {
    match json {
        JsonView::Object(m) => {
            let enabled = field_bool(m, "enabled"@);
            let format = field_text(m, "format"@);
            if enabled is Err {
                Err(enabled->Err_0)
            } else if format is Err {
                Err(format->Err_0)
            } else {
                Ok(DateAppSettingsView { enabled: enabled->Ok_0, format: format->Ok_0 })
            }
        },
        _ => Err(DecodeFailure::NotAnObject),
    }
}

impl DateAppSettings {
    /// The wire form of the group.
    pub fn to_json(&self) -> (json: Json)
        ensures
            json@ == date_app_json(self@),
    {
        let fields = vec![
            ("enabled", encode_bool(self.enabled)),
            ("format", encode_text(&self.format)),
        ];
        assert(fields_view(fields@) =~= date_app_fields(self@));
        object_of(fields)
    }

    /// Reads the group from its wire form.
    pub fn from_json(json: &Json) -> (r: Result<DateAppSettings, DecodeError>)
        ensures
            match date_app_of(json@) {
                Ok(g) => r is Ok && r->Ok_0@ == g,
                Err(f) => r is Err && r->Err_0@ == f,
            },
    {
        let m = members_of_object(json)?;
        let enabled = get_bool(m, "enabled")?;
        let format = get_text(m, "format")?;
        Ok(DateAppSettings { enabled, format })
    }
}

/// The settings of the date app read back from their wire form as they
/// were.
pub proof fn lemma_date_app_round_trip(g: DateAppSettingsView)
    ensures
        date_app_of(date_app_json(g)) == Ok::<DateAppSettingsView, DecodeFailure>(g),
{
    let fields = date_app_fields(g);
    reveal_strlit("enabled");
    reveal_strlit("format");
    assert("enabled"@.len() == 7 && "format"@.len() == 6);
    assert(distinct_keys(fields));
    lemma_lookup_field(fields, 0);
    lemma_lookup_field(fields, 1);
}

/// The wire form of the optional settings of the time app.
pub open spec fn opt_time_app_json(g: Option<TimeAppSettings>) -> Option<JsonView> {
    match g {
        Some(g) => Some(time_app_json(g)),
        None => None,
    }
}

/// The wire form of the optional settings of the date app.
pub open spec fn opt_date_app_json(g: Option<DateAppSettingsView>) -> Option<JsonView> {
    match g {
        Some(g) => Some(date_app_json(g)),
        None => None,
    }
}

/// The optional settings of the time app that an object holds under
/// `key`.
pub open spec fn field_time_app(members: Seq<(Seq<char>, JsonView)>, key: Seq<char>) -> Result<
    Option<TimeAppSettings>,
    DecodeFailure,
> {
    let value = lookup(members, key);
    if repeated(members, key) {
        Err(DecodeFailure::Duplicate(key))
    } else if is_absent(value) {
        Ok(None)
    } else {
        match time_app_of(value->0) {
            Ok(g) => Ok(Some(g)),
            Err(f) => Err(f),
        }
    }
}

/// The optional settings of the date app that an object holds under
/// `key`.
pub open spec fn field_date_app(members: Seq<(Seq<char>, JsonView)>, key: Seq<char>) -> Result<
    Option<DateAppSettingsView>,
    DecodeFailure,
> {
    let value = lookup(members, key);
    if repeated(members, key) {
        Err(DecodeFailure::Duplicate(key))
    } else if is_absent(value) {
        Ok(None)
    } else {
        match date_app_of(value->0) {
            Ok(g) => Ok(Some(g)),
            Err(f) => Err(f),
        }
    }
}

/// The fields of the settings on the wire, each under its key.
pub open spec fn settings_fields(s: SettingsView) -> Seq<Field> {
    seq![
        ("brightness"@, u8_json(s.brightness)),
        ("autoBrightness"@, bool_json(s.auto_brightness)),
        ("autoTransition"@, bool_json(s.auto_transition)),
        ("appTime"@, u32_json(s.app_time)),
        ("transition"@, text_json(s.transition)),
        ("transitionTime"@, u32_json(s.transition_time)),
        ("textColor"@, opt_color_json(s.text_color)),
        ("timeApp"@, opt_time_app_json(s.time_app)),
        ("dateApp"@, opt_date_app_json(s.date_app)),
        ("tempUnit"@, text_json(s.temp_unit)),
        ("scrollSpeed"@, u32_json(s.scroll_speed)),
    ]
}

/// The wire form of the settings: an object with one member for each
/// field that is set, and none for a field that is not.
pub open spec fn settings_json(s: SettingsView) -> JsonView {
    JsonView::Object(members_of(settings_fields(s)))
}

/// The settings that a document holds. A field is absent where the
/// object has no member under its key, or `null`; members under other
/// keys are passed over; a field with more than one member under its key
/// is refused; the first field, in the order of declaration, that is
/// refused or whose member does not fit it makes the failure.
pub open spec fn settings_of(json: JsonView) -> Result<SettingsView, DecodeFailure> {
    match json {
        JsonView::Object(m) => {
            let brightness = field_u8(m, "brightness"@);
            let auto_brightness = field_bool(m, "autoBrightness"@);
            let auto_transition = field_bool(m, "autoTransition"@);
            let app_time = field_u32(m, "appTime"@);
            let transition = field_text(m, "transition"@);
            let transition_time = field_u32(m, "transitionTime"@);
            let text_color = field_color(m, "textColor"@);
            let time_app = field_time_app(m, "timeApp"@);
            let date_app = field_date_app(m, "dateApp"@);
            let temp_unit = field_text(m, "tempUnit"@);
            let scroll_speed = field_u32(m, "scrollSpeed"@);
            if brightness is Err {
                Err(brightness->Err_0)
            } else if auto_brightness is Err {
                Err(auto_brightness->Err_0)
            } else if auto_transition is Err {
                Err(auto_transition->Err_0)
            } else if app_time is Err {
                Err(app_time->Err_0)
            } else if transition is Err {
                Err(transition->Err_0)
            } else if transition_time is Err {
                Err(transition_time->Err_0)
            } else if text_color is Err {
                Err(text_color->Err_0)
            } else if time_app is Err {
                Err(time_app->Err_0)
            } else if date_app is Err {
                Err(date_app->Err_0)
            } else if temp_unit is Err {
                Err(temp_unit->Err_0)
            } else if scroll_speed is Err {
                Err(scroll_speed->Err_0)
            } else {
                Ok(
                    SettingsView {
                        brightness: brightness->Ok_0,
                        auto_brightness: auto_brightness->Ok_0,
                        auto_transition: auto_transition->Ok_0,
                        app_time: app_time->Ok_0,
                        transition: transition->Ok_0,
                        transition_time: transition_time->Ok_0,
                        text_color: text_color->Ok_0,
                        time_app: time_app->Ok_0,
                        date_app: date_app->Ok_0,
                        temp_unit: temp_unit->Ok_0,
                        scroll_speed: scroll_speed->Ok_0,
                    },
                )
            }
        },
        _ => Err(DecodeFailure::NotAnObject),
    }
}

/// The wire form of the optional settings of the time app.
fn encode_time_app(g: Option<TimeAppSettings>) -> (r: Option<Json>)
    ensures
        view_of(r) == opt_time_app_json(g),
{
    match g {
        Some(g) => Some(g.to_json()),
        None => None,
    }
}

/// The wire form of the optional settings of the date app.
fn encode_date_app(g: &Option<DateAppSettings>) -> (r: Option<Json>)
    ensures
        view_of(r) == opt_date_app_json(
            match *g {
                Some(g) => Some(g@),
                None => None,
            },
        ),
{
    match g {
        Some(g) => Some(g.to_json()),
        None => None,
    }
}

/// Reads the optional settings of the time app under `key`.
fn get_time_app(members: &Vec<(String, Json)>, key: &str) -> (r: Result<
    Option<TimeAppSettings>,
    DecodeError,
>)
    ensures
        match field_time_app(members_view(members@), key@) {
            Ok(v) => r == Ok::<Option<TimeAppSettings>, DecodeError>(v) && (v matches Some(g)
                ==> g.well_formed()),
            Err(f) => r is Err && r->Err_0@ == f,
        },
{
    match find_once(members, key)? {
        None => Ok(None),
        Some(Json::Null) => Ok(None),
        Some(j) => match TimeAppSettings::from_json(j) {
            Ok(g) => Ok(Some(g)),
            Err(f) => Err(f),
        },
    }
}

/// Reads the optional settings of the date app under `key`.
fn get_date_app(members: &Vec<(String, Json)>, key: &str) -> (r: Result<
    Option<DateAppSettings>,
    DecodeError,
>)
    ensures
        match field_date_app(members_view(members@), key@) {
            Ok(v) => r is Ok && v == (match r->Ok_0 {
                Some(g) => Some(g@),
                None => None,
            }),
            Err(f) => r is Err && r->Err_0@ == f,
        },
{
    match find_once(members, key)? {
        None => Ok(None),
        Some(Json::Null) => Ok(None),
        Some(j) => match DateAppSettings::from_json(j) {
            Ok(g) => Ok(Some(g)),
            Err(f) => Err(f),
        },
    }
}

impl Settings {
    /// The wire form of the settings.
    pub fn to_json(&self) -> (json: Json)
        ensures
            json@ == settings_json(self@),
    {
        let fields = vec![
            ("brightness", encode_u8(self.brightness)),
            ("autoBrightness", encode_bool(self.auto_brightness)),
            ("autoTransition", encode_bool(self.auto_transition)),
            ("appTime", encode_u32(self.app_time)),
            ("transition", encode_text(&self.transition)),
            ("transitionTime", encode_u32(self.transition_time)),
            ("textColor", encode_color(self.text_color)),
            ("timeApp", encode_time_app(self.time_app)),
            ("dateApp", encode_date_app(&self.date_app)),
            ("tempUnit", encode_text(&self.temp_unit)),
            ("scrollSpeed", encode_u32(self.scroll_speed)),
        ];
        assert(fields_view(fields@) =~= settings_fields(self@));
        object_of(fields)
    }

    /// Reads settings from their wire form. What is read is well formed.
    pub fn from_json(json: &Json) -> (r: Result<Settings, DecodeError>)
        ensures
            match settings_of(json@) {
                Ok(s) => r is Ok && r->Ok_0@ == s && s.well_formed(),
                Err(f) => r is Err && r->Err_0@ == f,
            },
    {
        let m = members_of_object(json)?;
        let brightness = get_u8(m, "brightness")?;
        let auto_brightness = get_bool(m, "autoBrightness")?;
        let auto_transition = get_bool(m, "autoTransition")?;
        let app_time = get_u32(m, "appTime")?;
        let transition = get_text(m, "transition")?;
        let transition_time = get_u32(m, "transitionTime")?;
        let text_color = get_color(m, "textColor")?;
        let time_app = get_time_app(m, "timeApp")?;
        let date_app = get_date_app(m, "dateApp")?;
        let temp_unit = get_text(m, "tempUnit")?;
        let scroll_speed = get_u32(m, "scrollSpeed")?;
        Ok(
            Settings {
                brightness,
                auto_brightness,
                auto_transition,
                app_time,
                transition,
                transition_time,
                text_color,
                time_app,
                date_app,
                temp_unit,
                scroll_speed,
            },
        )
    }
}

/// No two fields of the settings share a key.
pub proof fn lemma_settings_keys(s: SettingsView)
    ensures
        distinct_keys(settings_fields(s)),
        settings_fields(s).len() == 11,
{
    reveal_strlit("brightness");
    reveal_strlit("autoBrightness");
    reveal_strlit("autoTransition");
    reveal_strlit("appTime");
    reveal_strlit("transition");
    reveal_strlit("transitionTime");
    reveal_strlit("textColor");
    reveal_strlit("timeApp");
    reveal_strlit("dateApp");
    reveal_strlit("tempUnit");
    reveal_strlit("scrollSpeed");
    assert("brightness"@.len() == 10 && "transition"@.len() == 10);
    assert("brightness"@[0] == 'b' && "transition"@[0] == 't');
    assert("autoBrightness"@.len() == 14 && "autoTransition"@.len() == 14
        && "transitionTime"@.len() == 14);
    assert("autoBrightness"@[4] == 'B' && "autoTransition"@[4] == 'T' && "transitionTime"@[4]
        == 's');
    assert("appTime"@.len() == 7 && "timeApp"@.len() == 7 && "dateApp"@.len() == 7);
    assert("appTime"@[0] == 'a' && "timeApp"@[0] == 't' && "dateApp"@[0] == 'd');
    assert("textColor"@.len() == 9 && "tempUnit"@.len() == 8 && "scrollSpeed"@.len() == 11);
}

/// Well-formed settings read back from their wire form as they were: the
/// fields that were set with their values, the others absent.
pub proof fn lemma_settings_round_trip(s: SettingsView)
    requires
        s.well_formed(),
    ensures
        settings_of(settings_json(s)) == Ok::<SettingsView, DecodeFailure>(s),
{
    let fields = settings_fields(s);
    lemma_settings_keys(s);
    assert forall|i: int| 0 <= i < 11 implies lookup(members_of(fields), #[trigger] fields[i].0)
        == fields[i].1 && !repeated(
        members_of(fields),
        fields[i].0,
    ) by {
        lemma_lookup_field(fields, i);
    }
    let m = members_of(fields);
    assert(fields[0].0 == "brightness"@ && field_u8(m, "brightness"@) == Ok::<
        Option<u8>,
        DecodeFailure,
    >(s.brightness));
    assert(fields[1].0 == "autoBrightness"@ && field_bool(m, "autoBrightness"@) == Ok::<
        Option<bool>,
        DecodeFailure,
    >(s.auto_brightness));
    assert(fields[2].0 == "autoTransition"@ && field_bool(m, "autoTransition"@) == Ok::<
        Option<bool>,
        DecodeFailure,
    >(s.auto_transition));
    assert(fields[3].0 == "appTime"@ && field_u32(m, "appTime"@) == Ok::<
        Option<u32>,
        DecodeFailure,
    >(s.app_time));
    assert(fields[4].0 == "transition"@ && field_text(m, "transition"@) == Ok::<
        Option<Seq<char>>,
        DecodeFailure,
    >(s.transition));
    assert(fields[5].0 == "transitionTime"@ && field_u32(m, "transitionTime"@) == Ok::<
        Option<u32>,
        DecodeFailure,
    >(s.transition_time));
    assert(fields[6].0 == "textColor"@ && field_color(m, "textColor"@) == Ok::<
        Option<Color>,
        DecodeFailure,
    >(s.text_color)) by {
        if s.text_color is Some {
            lemma_color_wire_forms_agree(s.text_color->0);
        }
    }
    assert(fields[7].0 == "timeApp"@ && field_time_app(m, "timeApp"@) == Ok::<
        Option<TimeAppSettings>,
        DecodeFailure,
    >(s.time_app)) by {
        if s.time_app is Some {
            lemma_time_app_round_trip(s.time_app->0);
        }
    }
    assert(fields[8].0 == "dateApp"@ && field_date_app(m, "dateApp"@) == Ok::<
        Option<DateAppSettingsView>,
        DecodeFailure,
    >(s.date_app)) by {
        if s.date_app is Some {
            lemma_date_app_round_trip(s.date_app->0);
        }
    }
    assert(fields[9].0 == "tempUnit"@ && field_text(m, "tempUnit"@) == Ok::<
        Option<Seq<char>>,
        DecodeFailure,
    >(s.temp_unit));
    assert(fields[10].0 == "scrollSpeed"@ && field_u32(m, "scrollSpeed"@) == Ok::<
        Option<u32>,
        DecodeFailure,
    >(s.scroll_speed));
}


impl Settings {
    /// Reads a value from JSON text: the text must be a JSON document,
    /// and the document must hold the value.
    pub fn from_text(text: &str) -> (r: Result<Settings, AwtrixError>)
        ensures
            match json_document(text@) {
                None => r is Err && is_syntax_error(r->Err_0),
                Some(j) => match settings_of(j) {
                    Ok(v) => r is Ok && r->Ok_0@ == v,
                    Err(f) => r is Err && is_schema_error(r->Err_0, f),
                },
            },
    {
        let json = Json::parse(text)?;
        match Settings::from_json(&json) {
            Ok(v) => Ok(v),
            Err(e) => Err(AwtrixError::Serialization(SerializationError::Schema(e))),
        }
    }

    /// Writes the value as JSON text, which never fails.
    pub fn to_text(&self) -> (r: Result<String, AwtrixError>)
        ensures
            r is Ok,
            r->Ok_0@ == json_text(settings_json(self@)),
    {
        self.to_json().to_text()
    }
}

} // verus!
