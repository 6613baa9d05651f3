//! Notifications: one-shot messages shown over the app loop.

use vstd::prelude::*;
use crate::error::{is_schema_error, is_syntax_error, AwtrixError, SerializationError};
use crate::json::{json_document, json_text};
use vstd::string::StringExecFns;
use crate::json::{members_view, Json, JsonView};
use crate::models::color::Color;
use crate::text::text_of;
use crate::wire::{
    bool_json, distinct_keys, encode_bool, encode_color, encode_or_null, encode_text, encode_u32,
    encode_u8, field_bool, field_color, field_text, field_u32, field_u8, fields_view, find_once,
    get_bool, get_color, get_text, get_u32, get_u8, is_absent, lemma_color_wire_forms_agree,
    lemma_lookup_field, members_of, members_of_object, object_of, opt_color_json, or_null,
    repeated, text_json, u32_json, u8_json, view_of, DecodeError, DecodeFailure, Field,
};

verus! {

/// Fine tuning of a notification's effect.
#[derive(Debug, Clone)]
pub struct EffectSettings {
    pub speed: Option<u32>,
    pub palette: Option<String>,
    pub blend: Option<bool>,
}

/// `EffectSettings` with its texts as sequences of characters.
pub struct EffectSettingsView {
    pub speed: Option<u32>,
    pub palette: Option<Seq<char>>,
    pub blend: Option<bool>,
}

impl View for EffectSettings {
    type V = EffectSettingsView;

    open spec fn view(&self) -> EffectSettingsView {
        EffectSettingsView {
            speed: self.speed,
            palette: text_of(self.palette),
            blend: self.blend,
        }
    }
}

/// A notification. Every field is optional, and an absent field is not
/// sent at all.
#[derive(Debug, Clone)]
pub struct Notification {
    /// The text to display.
    pub text: Option<String>,
    /// The id of the icon to display.
    pub icon: Option<u32>,
    /// The color of the text.
    pub color: Option<Color>,
    /// How long to show the notification, in seconds.
    pub duration: Option<u32>,
    /// The sound to play.
    pub sound: Option<String>,
    /// A melody to play, in RTTTL.
    pub rtttl: Option<String>,
    /// Whether the sound repeats.
    pub loop_sound: Option<bool>,
    /// The progress bar, from 0 to 100.
    pub progress: Option<u8>,
    /// The color of the progress bar.
    pub progress_c: Option<Color>,
    /// The color behind the progress bar.
    pub progress_bc: Option<Color>,
    /// Whether the text runs through the rainbow.
    pub rainbow: Option<bool>,
    /// Whether the notification queues behind the one on display.
    pub stack: Option<bool>,
    /// Whether the notification stays until dismissed.
    pub hold: Option<bool>,
    /// Whether the notification wakes the display.
    pub wakeup: Option<bool>,
    /// Whether the text stands still.
    pub no_scroll: Option<bool>,
    /// The scroll speed, in percent.
    pub scroll_speed: Option<u32>,
    /// The name of an effect.
    pub effect: Option<String>,
    /// Fine tuning of the effect.
    pub effect_settings: Option<EffectSettings>,
}

/// `Notification` with its texts as sequences of characters.
pub struct NotificationView {
    pub text: Option<Seq<char>>,
    pub icon: Option<u32>,
    pub color: Option<Color>,
    pub duration: Option<u32>,
    pub sound: Option<Seq<char>>,
    pub rtttl: Option<Seq<char>>,
    pub loop_sound: Option<bool>,
    pub progress: Option<u8>,
    pub progress_c: Option<Color>,
    pub progress_bc: Option<Color>,
    pub rainbow: Option<bool>,
    pub stack: Option<bool>,
    pub hold: Option<bool>,
    pub wakeup: Option<bool>,
    pub no_scroll: Option<bool>,
    pub scroll_speed: Option<u32>,
    pub effect: Option<Seq<char>>,
    pub effect_settings: Option<EffectSettingsView>,
}

impl View for Notification {
    type V = NotificationView;

    open spec fn view(&self) -> NotificationView {
        NotificationView {
            text: text_of(self.text),
            icon: self.icon,
            color: self.color,
            duration: self.duration,
            sound: text_of(self.sound),
            rtttl: text_of(self.rtttl),
            loop_sound: self.loop_sound,
            progress: self.progress,
            progress_c: self.progress_c,
            progress_bc: self.progress_bc,
            rainbow: self.rainbow,
            stack: self.stack,
            hold: self.hold,
            wakeup: self.wakeup,
            no_scroll: self.no_scroll,
            scroll_speed: self.scroll_speed,
            effect: text_of(self.effect),
            effect_settings: match self.effect_settings {
                Some(e) => Some(e@),
                None => None,
            },
        }
    }
}

impl NotificationView {
    /// Whether the progress, if set, is at most 100.
    pub open spec fn well_formed(self) -> bool {
        self.progress matches Some(p) ==> p <= 100
    }

    /// The notification with every field absent.
    pub open spec fn empty() -> NotificationView {
        NotificationView {
            text: None,
            icon: None,
            color: None,
            duration: None,
            sound: None,
            rtttl: None,
            loop_sound: None,
            progress: None,
            progress_c: None,
            progress_bc: None,
            rainbow: None,
            stack: None,
            hold: None,
            wakeup: None,
            no_scroll: None,
            scroll_speed: None,
            effect: None,
            effect_settings: None,
        }
    }
}

/// `p`, or 100 where `p` is above.
pub open spec fn clamp_progress(p: u8) -> u8 {
    if p > 100 {
        100
    } else {
        p
    }
}

/// Clamping a progress a second time changes nothing.
pub proof fn lemma_clamp_progress_idempotent(p: u8)
    ensures
        clamp_progress(p) <= 100,
        clamp_progress(clamp_progress(p)) == clamp_progress(p),
{
}

/// Builds a notification field by field. Each setter fills one field and
/// leaves the others as they are; no step can fail, and what is built is
/// well formed at every step.
pub struct NotificationBuilder {
    notification: Notification,
}

impl NotificationBuilder {
    #[verifier::type_invariant]
    closed spec fn holds_well_formed(self) -> bool {
        self.notification@.well_formed()
    }

    /// The notification that `build` will hand out.
    pub closed spec fn built(&self) -> Notification {
        self.notification
    }

    /// A builder whose notification has every field absent.
    pub fn new() -> (b: NotificationBuilder)
        ensures
            b.built()@ == NotificationView::empty(),
    {
        NotificationBuilder {
            notification: Notification {
                text: None,
                icon: None,
                color: None,
                duration: None,
                sound: None,
                rtttl: None,
                loop_sound: None,
                progress: None,
                progress_c: None,
                progress_bc: None,
                rainbow: None,
                stack: None,
                hold: None,
                wakeup: None,
                no_scroll: None,
                scroll_speed: None,
                effect: None,
                effect_settings: None,
            },
        }
    }

    pub fn text(self, text: &str) -> (b: NotificationBuilder)
        ensures
            b.built()@ == (NotificationView { text: Some(text@), ..self.built()@ }),
    {
        proof {
            use_type_invariant(&self);
        }
        let mut notification = self.notification;
        notification.text = Some(String::from_str(text));
        NotificationBuilder { notification }
    }

    pub fn icon(self, icon: u32) -> (b: NotificationBuilder)
        ensures
            b.built()@ == (NotificationView { icon: Some(icon), ..self.built()@ }),
    {
        proof {
            use_type_invariant(&self);
        }
        let mut notification = self.notification;
        notification.icon = Some(icon);
        NotificationBuilder { notification }
    }

    pub fn color(self, color: Color) -> (b: NotificationBuilder)
        ensures
            b.built()@ == (NotificationView { color: Some(color), ..self.built()@ }),
    {
        proof {
            use_type_invariant(&self);
        }
        let mut notification = self.notification;
        notification.color = Some(color);
        NotificationBuilder { notification }
    }

    pub fn duration(self, duration: u32) -> (b: NotificationBuilder)
        ensures
            b.built()@ == (NotificationView { duration: Some(duration), ..self.built()@ }),
    {
        proof {
            use_type_invariant(&self);
        }
        let mut notification = self.notification;
        notification.duration = Some(duration);
        NotificationBuilder { notification }
    }

    pub fn sound(self, sound: &str) -> (b: NotificationBuilder)
        ensures
            b.built()@ == (NotificationView { sound: Some(sound@), ..self.built()@ }),
    {
        proof {
            use_type_invariant(&self);
        }
        let mut notification = self.notification;
        notification.sound = Some(String::from_str(sound));
        NotificationBuilder { notification }
    }

    /// Sets the progress bar; a value above 100 counts as 100.
    pub fn progress(self, progress: u8) -> (b: NotificationBuilder)
        ensures
            b.built()@ == (NotificationView {
                progress: Some(clamp_progress(progress)),
                ..self.built()@
            }),
    {
        proof {
            use_type_invariant(&self);
        }
        let mut notification = self.notification;
        notification.progress = Some(if progress > 100 {
            100
        } else {
            progress
        });
        NotificationBuilder { notification }
    }

    pub fn hold(self, hold: bool) -> (b: NotificationBuilder)
        ensures
            b.built()@ == (NotificationView { hold: Some(hold), ..self.built()@ }),
    {
        proof {
            use_type_invariant(&self);
        }
        let mut notification = self.notification;
        notification.hold = Some(hold);
        NotificationBuilder { notification }
    }

    pub fn wakeup(self, wakeup: bool) -> (b: NotificationBuilder)
        ensures
            b.built()@ == (NotificationView { wakeup: Some(wakeup), ..self.built()@ }),
    {
        proof {
            use_type_invariant(&self);
        }
        let mut notification = self.notification;
        notification.wakeup = Some(wakeup);
        NotificationBuilder { notification }
    }

    /// The notification as built so far.
    pub fn build(self) -> (n: Notification)
        ensures
            n == self.built(),
            n@.well_formed(),
    {
        proof {
            use_type_invariant(&self);
        }
        self.notification
    }
}

impl Notification {
    /// A builder whose notification has every field absent.
    pub fn builder() -> (b: NotificationBuilder)
        ensures
            b.built()@ == NotificationView::empty(),
    {
        NotificationBuilder::new()
    }
}


/// The fields of effect settings on the wire. All three are sent, those
/// that are not set as `null`.
pub open spec fn effect_settings_fields(e: EffectSettingsView) -> Seq<Field> {
    seq![
        ("speed"@, or_null(u32_json(e.speed))),
        ("palette"@, or_null(text_json(e.palette))),
        ("blend"@, or_null(bool_json(e.blend))),
    ]
}

/// The wire form of effect settings.
pub open spec fn effect_settings_json(e: EffectSettingsView) -> JsonView {
    JsonView::Object(members_of(effect_settings_fields(e)))
}

/// The effect settings that a document holds.
pub open spec fn effect_settings_of(json: JsonView) -> Result<EffectSettingsView, DecodeFailure> {
    match json {
        JsonView::Object(m) => {
            let speed = field_u32(m, "speed"@);
            let palette = field_text(m, "palette"@);
            let blend = field_bool(m, "blend"@);
            if speed is Err {
                Err(speed->Err_0)
            } else if palette is Err {
                Err(palette->Err_0)
            } else if blend is Err {
                Err(blend->Err_0)
            } else {
                Ok(
                    EffectSettingsView {
                        speed: speed->Ok_0,
                        palette: palette->Ok_0,
                        blend: blend->Ok_0,
                    },
                )
            }
        },
        _ => Err(DecodeFailure::NotAnObject),
    }
}

impl EffectSettings {
    /// The wire form of the effect settings.
    pub fn to_json(&self) -> (json: Json)
        ensures
            json@ == effect_settings_json(self@),
    {
        let fields = vec![
            ("speed", encode_or_null(encode_u32(self.speed))),
            ("palette", encode_or_null(encode_text(&self.palette))),
            ("blend", encode_or_null(encode_bool(self.blend))),
        ];
        assert(fields_view(fields@) =~= effect_settings_fields(self@));
        object_of(fields)
    }

    /// Reads effect settings from their wire form.
    pub fn from_json(json: &Json) -> (r: Result<EffectSettings, DecodeError>)
        ensures
            match effect_settings_of(json@) {
                Ok(e) => r is Ok && r->Ok_0@ == e,
                Err(f) => r is Err && r->Err_0@ == f,
            },
    {
        let m = members_of_object(json)?;
        let speed = get_u32(m, "speed")?;
        let palette = get_text(m, "palette")?;
        let blend = get_bool(m, "blend")?;
        Ok(EffectSettings { speed, palette, blend })
    }
}

/// Effect settings read back from their wire form as they were.
pub proof fn lemma_effect_settings_round_trip(e: EffectSettingsView)
    ensures
        effect_settings_of(effect_settings_json(e)) == Ok::<EffectSettingsView, DecodeFailure>(e),
{
    let fields = effect_settings_fields(e);
    reveal_strlit("speed");
    reveal_strlit("palette");
    reveal_strlit("blend");
    assert("speed"@.len() == 5 && "palette"@.len() == 7 && "blend"@.len() == 5);
    assert("speed"@[0] == 's' && "blend"@[0] == 'b');
    assert(distinct_keys(fields));
    lemma_lookup_field(fields, 0);
    lemma_lookup_field(fields, 1);
    lemma_lookup_field(fields, 2);
}


/// The wire form of optional effect settings.
pub open spec fn opt_effect_settings_json(e: Option<EffectSettingsView>) -> Option<JsonView> {
    match e {
        Some(e) => Some(effect_settings_json(e)),
        None => None,
    }
}

/// The optional effect settings that an object holds under `key`.
pub open spec fn field_effect_settings(
    members: Seq<(Seq<char>, JsonView)>,
    key: Seq<char>,
) -> Result<Option<EffectSettingsView>, DecodeFailure> {
    let value = crate::json::lookup(members, key);
    if repeated(members, key) {
        Err(DecodeFailure::Duplicate(key))
    } else if is_absent(value) {
        Ok(None)
    } else {
        match effect_settings_of(value->0) {
            Ok(e) => Ok(Some(e)),
            Err(f) => Err(f),
        }
    }
}

/// The fields of a notification on the wire, each under its key.
pub open spec fn notification_fields(n: NotificationView) -> Seq<Field> {
    seq![
        ("text"@, text_json(n.text)),
        ("icon"@, u32_json(n.icon)),
        ("color"@, opt_color_json(n.color)),
        ("duration"@, u32_json(n.duration)),
        ("sound"@, text_json(n.sound)),
        ("rtttl"@, text_json(n.rtttl)),
        ("loopSound"@, bool_json(n.loop_sound)),
        ("progress"@, u8_json(n.progress)),
        ("progressC"@, opt_color_json(n.progress_c)),
        ("progressBc"@, opt_color_json(n.progress_bc)),
        ("rainbow"@, bool_json(n.rainbow)),
        ("stack"@, bool_json(n.stack)),
        ("hold"@, bool_json(n.hold)),
        ("wakeup"@, bool_json(n.wakeup)),
        ("noScroll"@, bool_json(n.no_scroll)),
        ("scrollSpeed"@, u32_json(n.scroll_speed)),
        ("effect"@, text_json(n.effect)),
        ("effectSettings"@, opt_effect_settings_json(n.effect_settings)),
    ]
}

/// The wire form of a notification: an object with one member for each
/// field that is set, and none for a field that is not.
pub open spec fn notification_json(n: NotificationView) -> JsonView {
    JsonView::Object(members_of(notification_fields(n)))
}

/// The notification that a document holds. A field is absent where the
/// object has no member under its key, or `null`; members under other
/// keys are passed over; a field with more than one member under its key
/// is refused; the first field, in the order of declaration, that is
/// refused or whose member does not fit it makes the failure.
pub open spec fn notification_of(json: JsonView) -> Result<NotificationView, DecodeFailure> {
    match json {
        JsonView::Object(m) => {
            let text = field_text(m, "text"@);
            let icon = field_u32(m, "icon"@);
            let color = field_color(m, "color"@);
            let duration = field_u32(m, "duration"@);
            let sound = field_text(m, "sound"@);
            let rtttl = field_text(m, "rtttl"@);
            let loop_sound = field_bool(m, "loopSound"@);
            let progress = field_u8(m, "progress"@);
            let progress_c = field_color(m, "progressC"@);
            let progress_bc = field_color(m, "progressBc"@);
            let rainbow = field_bool(m, "rainbow"@);
            let stack = field_bool(m, "stack"@);
            let hold = field_bool(m, "hold"@);
            let wakeup = field_bool(m, "wakeup"@);
            let no_scroll = field_bool(m, "noScroll"@);
            let scroll_speed = field_u32(m, "scrollSpeed"@);
            let effect = field_text(m, "effect"@);
            let effect_settings = field_effect_settings(m, "effectSettings"@);
            if text is Err {
                Err(text->Err_0)
            } else if icon is Err {
                Err(icon->Err_0)
            } else if color is Err {
                Err(color->Err_0)
            } else if duration is Err {
                Err(duration->Err_0)
            } else if sound is Err {
                Err(sound->Err_0)
            } else if rtttl is Err {
                Err(rtttl->Err_0)
            } else if loop_sound is Err {
                Err(loop_sound->Err_0)
            } else if progress is Err {
                Err(progress->Err_0)
            } else if progress_c is Err {
                Err(progress_c->Err_0)
            } else if progress_bc is Err {
                Err(progress_bc->Err_0)
            } else if rainbow is Err {
                Err(rainbow->Err_0)
            } else if stack is Err {
                Err(stack->Err_0)
            } else if hold is Err {
                Err(hold->Err_0)
            } else if wakeup is Err {
                Err(wakeup->Err_0)
            } else if no_scroll is Err {
                Err(no_scroll->Err_0)
            } else if scroll_speed is Err {
                Err(scroll_speed->Err_0)
            } else if effect is Err {
                Err(effect->Err_0)
            } else if effect_settings is Err {
                Err(effect_settings->Err_0)
            } else {
                Ok(
                    NotificationView {
                        text: text->Ok_0,
                        icon: icon->Ok_0,
                        color: color->Ok_0,
                        duration: duration->Ok_0,
                        sound: sound->Ok_0,
                        rtttl: rtttl->Ok_0,
                        loop_sound: loop_sound->Ok_0,
                        progress: progress->Ok_0,
                        progress_c: progress_c->Ok_0,
                        progress_bc: progress_bc->Ok_0,
                        rainbow: rainbow->Ok_0,
                        stack: stack->Ok_0,
                        hold: hold->Ok_0,
                        wakeup: wakeup->Ok_0,
                        no_scroll: no_scroll->Ok_0,
                        scroll_speed: scroll_speed->Ok_0,
                        effect: effect->Ok_0,
                        effect_settings: effect_settings->Ok_0,
                    },
                )
            }
        },
        _ => Err(DecodeFailure::NotAnObject),
    }
}

/// The wire form of optional effect settings.
fn encode_effect_settings(e: &Option<EffectSettings>) -> (r: Option<Json>)
    ensures
        view_of(r) == opt_effect_settings_json(
            match *e {
                Some(e) => Some(e@),
                None => None,
            },
        ),
{
    match e {
        Some(e) => Some(e.to_json()),
        None => None,
    }
}

/// Reads the optional effect settings under `key`.
fn get_effect_settings(members: &Vec<(String, Json)>, key: &str) -> (r: Result<
    Option<EffectSettings>,
    DecodeError,
>)
    ensures
        match field_effect_settings(members_view(members@), key@) {
            Ok(v) => r is Ok && v == (match r->Ok_0 {
                Some(e) => Some(e@),
                None => None,
            }),
            Err(f) => r is Err && r->Err_0@ == f,
        },
{
    match find_once(members, key)? {
        None => Ok(None),
        Some(Json::Null) => Ok(None),
        Some(j) => match EffectSettings::from_json(j) {
            Ok(e) => Ok(Some(e)),
            Err(f) => Err(f),
        },
    }
}

impl Notification {
    /// The wire form of the notification.
    pub fn to_json(&self) -> (json: Json)
        ensures
            json@ == notification_json(self@),
    {
        let fields = vec![
            ("text", encode_text(&self.text)),
            ("icon", encode_u32(self.icon)),
            ("color", encode_color(self.color)),
            ("duration", encode_u32(self.duration)),
            ("sound", encode_text(&self.sound)),
            ("rtttl", encode_text(&self.rtttl)),
            ("loopSound", encode_bool(self.loop_sound)),
            ("progress", encode_u8(self.progress)),
            ("progressC", encode_color(self.progress_c)),
            ("progressBc", encode_color(self.progress_bc)),
            ("rainbow", encode_bool(self.rainbow)),
            ("stack", encode_bool(self.stack)),
            ("hold", encode_bool(self.hold)),
            ("wakeup", encode_bool(self.wakeup)),
            ("noScroll", encode_bool(self.no_scroll)),
            ("scrollSpeed", encode_u32(self.scroll_speed)),
            ("effect", encode_text(&self.effect)),
            ("effectSettings", encode_effect_settings(&self.effect_settings)),
        ];
        assert(fields_view(fields@) =~= notification_fields(self@));
        object_of(fields)
    }

    /// Reads a notification from its wire form.
    pub fn from_json(json: &Json) -> (r: Result<Notification, DecodeError>)
        ensures
            match notification_of(json@) {
                Ok(n) => r is Ok && r->Ok_0@ == n,
                Err(f) => r is Err && r->Err_0@ == f,
            },
    {
        let m = members_of_object(json)?;
        let text = get_text(m, "text")?;
        let icon = get_u32(m, "icon")?;
        let color = get_color(m, "color")?;
        let duration = get_u32(m, "duration")?;
        let sound = get_text(m, "sound")?;
        let rtttl = get_text(m, "rtttl")?;
        let loop_sound = get_bool(m, "loopSound")?;
        let progress = get_u8(m, "progress")?;
        let progress_c = get_color(m, "progressC")?;
        let progress_bc = get_color(m, "progressBc")?;
        let rainbow = get_bool(m, "rainbow")?;
        let stack = get_bool(m, "stack")?;
        let hold = get_bool(m, "hold")?;
        let wakeup = get_bool(m, "wakeup")?;
        let no_scroll = get_bool(m, "noScroll")?;
        let scroll_speed = get_u32(m, "scrollSpeed")?;
        let effect = get_text(m, "effect")?;
        let effect_settings = get_effect_settings(m, "effectSettings")?;
        Ok(
            Notification {
                text,
                icon,
                color,
                duration,
                sound,
                rtttl,
                loop_sound,
                progress,
                progress_c,
                progress_bc,
                rainbow,
                stack,
                hold,
                wakeup,
                no_scroll,
                scroll_speed,
                effect,
                effect_settings,
            },
        )
    }
}

/// No two fields of a notification share a key.
pub proof fn lemma_notification_keys(n: NotificationView)
    ensures
        distinct_keys(notification_fields(n)),
        notification_fields(n).len() == 18,
{
    reveal_strlit("text");
    reveal_strlit("icon");
    reveal_strlit("color");
    reveal_strlit("duration");
    reveal_strlit("sound");
    reveal_strlit("rtttl");
    reveal_strlit("loopSound");
    reveal_strlit("progress");
    reveal_strlit("progressC");
    reveal_strlit("progressBc");
    reveal_strlit("rainbow");
    reveal_strlit("stack");
    reveal_strlit("hold");
    reveal_strlit("wakeup");
    reveal_strlit("noScroll");
    reveal_strlit("scrollSpeed");
    reveal_strlit("effect");
    reveal_strlit("effectSettings");
    assert("text"@.len() == 4 && "icon"@.len() == 4 && "hold"@.len() == 4);
    assert("text"@[0] == 't' && "icon"@[0] == 'i' && "hold"@[0] == 'h');
    assert("color"@.len() == 5 && "sound"@.len() == 5 && "rtttl"@.len() == 5 && "stack"@.len()
        == 5);
    assert("color"@[0] == 'c' && "sound"@[0] == 's' && "rtttl"@[0] == 'r' && "stack"@[0] == 's');
    assert("sound"@[1] == 'o' && "stack"@[1] == 't');
    assert("wakeup"@.len() == 6 && "effect"@.len() == 6);
    assert("wakeup"@[0] == 'w' && "effect"@[0] == 'e');
    assert("rainbow"@.len() == 7);
    assert("duration"@.len() == 8 && "progress"@.len() == 8 && "noScroll"@.len() == 8);
    assert("duration"@[0] == 'd' && "progress"@[0] == 'p' && "noScroll"@[0] == 'n');
    assert("loopSound"@.len() == 9 && "progressC"@.len() == 9);
    assert("loopSound"@[0] == 'l' && "progressC"@[0] == 'p');
    assert("progressBc"@.len() == 10 && "scrollSpeed"@.len() == 11 && "effectSettings"@.len()
        == 14);
}

/// A notification reads back from its wire form as it was: the fields
/// that were set with their values, the others absent.
pub proof fn lemma_notification_round_trip(n: NotificationView)
    ensures
        notification_of(notification_json(n)) == Ok::<NotificationView, DecodeFailure>(n),
{
    let fields = notification_fields(n);
    lemma_notification_keys(n);
    assert forall|i: int| 0 <= i < 18 implies crate::json::lookup(
        members_of(fields),
        #[trigger] fields[i].0,
    ) == fields[i].1 && !repeated(
        members_of(fields),
        fields[i].0,
    ) by {
        lemma_lookup_field(fields, i);
    }
    if n.color is Some {
        lemma_color_wire_forms_agree(n.color->0);
    }
    if n.progress_c is Some {
        lemma_color_wire_forms_agree(n.progress_c->0);
    }
    if n.progress_bc is Some {
        lemma_color_wire_forms_agree(n.progress_bc->0);
    }
    if n.effect_settings is Some {
        lemma_effect_settings_round_trip(n.effect_settings->0);
    }
    let m = members_of(fields);
    assert(fields[0].0 == "text"@ && field_text(m, "text"@) == Ok::<
        Option<Seq<char>>,
        DecodeFailure,
    >(n.text));
    assert(fields[1].0 == "icon"@ && field_u32(m, "icon"@) == Ok::<Option<u32>, DecodeFailure>(
        n.icon,
    ));
    assert(fields[2].0 == "color"@ && field_color(m, "color"@) == Ok::<
        Option<Color>,
        DecodeFailure,
    >(n.color));
    assert(fields[3].0 == "duration"@ && field_u32(m, "duration"@) == Ok::<
        Option<u32>,
        DecodeFailure,
    >(n.duration));
    assert(fields[4].0 == "sound"@ && field_text(m, "sound"@) == Ok::<
        Option<Seq<char>>,
        DecodeFailure,
    >(n.sound));
    assert(fields[5].0 == "rtttl"@ && field_text(m, "rtttl"@) == Ok::<
        Option<Seq<char>>,
        DecodeFailure,
    >(n.rtttl));
    assert(fields[6].0 == "loopSound"@ && field_bool(m, "loopSound"@) == Ok::<
        Option<bool>,
        DecodeFailure,
    >(n.loop_sound));
    assert(fields[7].0 == "progress"@ && field_u8(m, "progress"@) == Ok::<
        Option<u8>,
        DecodeFailure,
    >(n.progress));
    assert(fields[8].0 == "progressC"@ && field_color(m, "progressC"@) == Ok::<
        Option<Color>,
        DecodeFailure,
    >(n.progress_c));
    assert(fields[9].0 == "progressBc"@ && field_color(m, "progressBc"@) == Ok::<
        Option<Color>,
        DecodeFailure,
    >(n.progress_bc));
    assert(fields[10].0 == "rainbow"@ && field_bool(m, "rainbow"@) == Ok::<
        Option<bool>,
        DecodeFailure,
    >(n.rainbow));
    assert(fields[11].0 == "stack"@ && field_bool(m, "stack"@) == Ok::<
        Option<bool>,
        DecodeFailure,
    >(n.stack));
    assert(fields[12].0 == "hold"@ && field_bool(m, "hold"@) == Ok::<
        Option<bool>,
        DecodeFailure,
    >(n.hold));
    assert(fields[13].0 == "wakeup"@ && field_bool(m, "wakeup"@) == Ok::<
        Option<bool>,
        DecodeFailure,
    >(n.wakeup));
    assert(fields[14].0 == "noScroll"@ && field_bool(m, "noScroll"@) == Ok::<
        Option<bool>,
        DecodeFailure,
    >(n.no_scroll));
    assert(fields[15].0 == "scrollSpeed"@ && field_u32(m, "scrollSpeed"@) == Ok::<
        Option<u32>,
        DecodeFailure,
    >(n.scroll_speed));
    assert(fields[16].0 == "effect"@ && field_text(m, "effect"@) == Ok::<
        Option<Seq<char>>,
        DecodeFailure,
    >(n.effect));
    assert(fields[17].0 == "effectSettings"@ && field_effect_settings(m, "effectSettings"@)
        == Ok::<Option<EffectSettingsView>, DecodeFailure>(n.effect_settings));
}


impl Notification {
    /// Reads a value from JSON text: the text must be a JSON document,
    /// and the document must hold the value.
    pub fn from_text(text: &str) -> (r: Result<Notification, AwtrixError>)
        ensures
            match json_document(text@) {
                None => r is Err && is_syntax_error(r->Err_0),
                Some(j) => match notification_of(j) {
                    Ok(v) => r is Ok && r->Ok_0@ == v,
                    Err(f) => r is Err && is_schema_error(r->Err_0, f),
                },
            },
    {
        let json = Json::parse(text)?;
        match Notification::from_json(&json) {
            Ok(v) => Ok(v),
            Err(e) => Err(AwtrixError::Serialization(SerializationError::Schema(e))),
        }
    }

    /// Writes the value as JSON text, which never fails.
    pub fn to_text(&self) -> (r: Result<String, AwtrixError>)
        ensures
            r is Ok,
            r->Ok_0@ == json_text(notification_json(self@)),
    {
        self.to_json().to_text()
    }
}

} // verus!
