//! Custom apps: named, lasting entries of the app loop.

use vstd::prelude::*;
use crate::error::{is_schema_error, is_syntax_error, AwtrixError, SerializationError};
use crate::json::{json_document, json_text};
use crate::json::{lookup, Json, JsonView};
use crate::models::color::Color;
use crate::text::text_of;
use crate::wire::{
    bool_json, distinct_keys, encode_bool, encode_color, encode_text, encode_u32, encode_u8,
    field_bool, field_color, field_text, field_u32, field_u8, fields_view, get_bool, get_color,
    get_text, get_u32, get_u8, lemma_color_wire_forms_agree, lemma_lookup_field, members_of,
    members_of_object, need_text, object_of, opt_color_json, repeated, required_text, text_json,
    u32_json, u8_json, DecodeError, DecodeFailure, Field,
};

verus! {

/// A custom app. Every field is optional, and an absent field is not sent
/// at all.
#[derive(Debug, Clone)]
pub struct CustomApp {
    /// The text to display.
    pub text: Option<String>,
    /// The id of the icon to display.
    pub icon: Option<u32>,
    /// The color of the text.
    pub color: Option<Color>,
    /// How long the app stays on display, in seconds.
    pub duration: Option<u32>,
    /// The progress bar, from 0 to 100.
    pub progress: Option<u8>,
    /// The color of the progress bar.
    pub progress_c: Option<Color>,
    /// The color behind the progress bar.
    pub progress_bc: Option<Color>,
    /// Whether the text runs through the rainbow.
    pub rainbow: Option<bool>,
    /// The time without an update after which the app is removed.
    pub lifetime: Option<u32>,
    /// Whether the app is kept in flash memory.
    pub save: Option<bool>,
    /// The place of the app in the loop.
    pub pos: Option<u32>,
}

/// `CustomApp` with its text as a sequence of characters.
pub struct CustomAppView {
    pub text: Option<Seq<char>>,
    pub icon: Option<u32>,
    pub color: Option<Color>,
    pub duration: Option<u32>,
    pub progress: Option<u8>,
    pub progress_c: Option<Color>,
    pub progress_bc: Option<Color>,
    pub rainbow: Option<bool>,
    pub lifetime: Option<u32>,
    pub save: Option<bool>,
    pub pos: Option<u32>,
}

impl View for CustomApp {
    type V = CustomAppView;

    open spec fn view(&self) -> CustomAppView {
        CustomAppView {
            text: text_of(self.text),
            icon: self.icon,
            color: self.color,
            duration: self.duration,
            progress: self.progress,
            progress_c: self.progress_c,
            progress_bc: self.progress_bc,
            rainbow: self.rainbow,
            lifetime: self.lifetime,
            save: self.save,
            pos: self.pos,
        }
    }
}

impl CustomAppView {
    /// The custom app with every field absent.
    pub open spec fn empty() -> CustomAppView {
        CustomAppView {
            text: None,
            icon: None,
            color: None,
            duration: None,
            progress: None,
            progress_c: None,
            progress_bc: None,
            rainbow: None,
            lifetime: None,
            save: None,
            pos: None,
        }
    }
}

impl CustomApp {
    /// The custom app with every field absent.
    pub fn new() -> (app: CustomApp)
        ensures
            app@ == CustomAppView::empty(),
    {
        CustomApp {
            text: None,
            icon: None,
            color: None,
            duration: None,
            progress: None,
            progress_c: None,
            progress_bc: None,
            rainbow: None,
            lifetime: None,
            save: None,
            pos: None,
        }
    }
}

impl Default for CustomApp {
    fn default() -> (app: CustomApp)
        ensures
            app@ == CustomAppView::empty(),
    {
        CustomApp::new()
    }
}

/// One app of the loop, as the device lists it.
#[derive(Debug, Clone)]
pub struct AppInfo {
    pub name: String,
    pub icon: Option<u32>,
    pub enabled: Option<bool>,
}

/// `AppInfo` with its name as a sequence of characters.
pub struct AppInfoView {
    pub name: Seq<char>,
    pub icon: Option<u32>,
    pub enabled: Option<bool>,
}

impl View for AppInfo {
    type V = AppInfoView;

    open spec fn view(&self) -> AppInfoView {
        AppInfoView { name: self.name@, icon: self.icon, enabled: self.enabled }
    }
}


/// The fields of a custom app on the wire, each under its key.
pub open spec fn custom_app_fields(a: CustomAppView) -> Seq<Field> {
    seq![
        ("text"@, text_json(a.text)),
        ("icon"@, u32_json(a.icon)),
        ("color"@, opt_color_json(a.color)),
        ("duration"@, u32_json(a.duration)),
        ("progress"@, u8_json(a.progress)),
        ("progressC"@, opt_color_json(a.progress_c)),
        ("progressBc"@, opt_color_json(a.progress_bc)),
        ("rainbow"@, bool_json(a.rainbow)),
        ("lifetime"@, u32_json(a.lifetime)),
        ("save"@, bool_json(a.save)),
        ("pos"@, u32_json(a.pos)),
    ]
}

/// The wire form of a custom app: an object with one member for each
/// field that is set, and none for a field that is not.
pub open spec fn custom_app_json(a: CustomAppView) -> JsonView {
    JsonView::Object(members_of(custom_app_fields(a)))
}

/// The custom app that a document holds. A field is absent where the
/// object has no member under its key, or `null`; members under other
/// keys are passed over; a field with more than one member under its key
/// is refused; the first field, in the order of declaration, that is
/// refused or whose member does not fit it makes the failure.
pub open spec fn custom_app_of(json: JsonView) -> Result<CustomAppView, DecodeFailure> {
    match json {
        JsonView::Object(m) => {
            let text = field_text(m, "text"@);
            let icon = field_u32(m, "icon"@);
            let color = field_color(m, "color"@);
            let duration = field_u32(m, "duration"@);
            let progress = field_u8(m, "progress"@);
            let progress_c = field_color(m, "progressC"@);
            let progress_bc = field_color(m, "progressBc"@);
            let rainbow = field_bool(m, "rainbow"@);
            let lifetime = field_u32(m, "lifetime"@);
            let save = field_bool(m, "save"@);
            let pos = field_u32(m, "pos"@);
            if text is Err {
                Err(text->Err_0)
            } else if icon is Err {
                Err(icon->Err_0)
            } else if color is Err {
                Err(color->Err_0)
            } else if duration is Err {
                Err(duration->Err_0)
            } else if progress is Err {
                Err(progress->Err_0)
            } else if progress_c is Err {
                Err(progress_c->Err_0)
            } else if progress_bc is Err {
                Err(progress_bc->Err_0)
            } else if rainbow is Err {
                Err(rainbow->Err_0)
            } else if lifetime is Err {
                Err(lifetime->Err_0)
            } else if save is Err {
                Err(save->Err_0)
            } else if pos is Err {
                Err(pos->Err_0)
            } else {
                Ok(
                    CustomAppView {
                        text: text->Ok_0,
                        icon: icon->Ok_0,
                        color: color->Ok_0,
                        duration: duration->Ok_0,
                        progress: progress->Ok_0,
                        progress_c: progress_c->Ok_0,
                        progress_bc: progress_bc->Ok_0,
                        rainbow: rainbow->Ok_0,
                        lifetime: lifetime->Ok_0,
                        save: save->Ok_0,
                        pos: pos->Ok_0,
                    },
                )
            }
        },
        _ => Err(DecodeFailure::NotAnObject),
    }
}

impl CustomApp {
    /// The wire form of the custom app.
    pub fn to_json(&self) -> (json: Json)
        ensures
            json@ == custom_app_json(self@),
    {
        let fields = vec![
            ("text", encode_text(&self.text)),
            ("icon", encode_u32(self.icon)),
            ("color", encode_color(self.color)),
            ("duration", encode_u32(self.duration)),
            ("progress", encode_u8(self.progress)),
            ("progressC", encode_color(self.progress_c)),
            ("progressBc", encode_color(self.progress_bc)),
            ("rainbow", encode_bool(self.rainbow)),
            ("lifetime", encode_u32(self.lifetime)),
            ("save", encode_bool(self.save)),
            ("pos", encode_u32(self.pos)),
        ];
        assert(fields_view(fields@) =~= custom_app_fields(self@));
        object_of(fields)
    }

    /// Reads a custom app from its wire form.
    pub fn from_json(json: &Json) -> (r: Result<CustomApp, DecodeError>)
        ensures
            match custom_app_of(json@) {
                Ok(a) => r is Ok && r->Ok_0@ == a,
                Err(f) => r is Err && r->Err_0@ == f,
            },
    {
        let m = members_of_object(json)?;
        let text = get_text(m, "text")?;
        let icon = get_u32(m, "icon")?;
        let color = get_color(m, "color")?;
        let duration = get_u32(m, "duration")?;
        let progress = get_u8(m, "progress")?;
        let progress_c = get_color(m, "progressC")?;
        let progress_bc = get_color(m, "progressBc")?;
        let rainbow = get_bool(m, "rainbow")?;
        let lifetime = get_u32(m, "lifetime")?;
        let save = get_bool(m, "save")?;
        let pos = get_u32(m, "pos")?;
        Ok(
            CustomApp {
                text,
                icon,
                color,
                duration,
                progress,
                progress_c,
                progress_bc,
                rainbow,
                lifetime,
                save,
                pos,
            },
        )
    }
}

/// No two fields of a custom app share a key.
pub proof fn lemma_custom_app_keys(a: CustomAppView)
    ensures
        distinct_keys(custom_app_fields(a)),
        custom_app_fields(a).len() == 11,
{
    reveal_strlit("text");
    reveal_strlit("icon");
    reveal_strlit("color");
    reveal_strlit("duration");
    reveal_strlit("progress");
    reveal_strlit("progressC");
    reveal_strlit("progressBc");
    reveal_strlit("rainbow");
    reveal_strlit("lifetime");
    reveal_strlit("save");
    reveal_strlit("pos");
    assert("text"@.len() == 4 && "icon"@.len() == 4 && "save"@.len() == 4);
    assert("text"@[0] == 't' && "icon"@[0] == 'i' && "save"@[0] == 's');
    assert("duration"@.len() == 8 && "progress"@.len() == 8 && "lifetime"@.len() == 8);
    assert("duration"@[0] == 'd' && "progress"@[0] == 'p' && "lifetime"@[0] == 'l');
    assert("color"@.len() == 5 && "progressC"@.len() == 9 && "progressBc"@.len() == 10);
    assert("rainbow"@.len() == 7 && "pos"@.len() == 3);
}

/// A custom app reads back from its wire form as it was: the fields that
/// were set with their values, the others absent.
pub proof fn lemma_custom_app_round_trip(a: CustomAppView)
    ensures
        custom_app_of(custom_app_json(a)) == Ok::<CustomAppView, DecodeFailure>(a),
{
    let fields = custom_app_fields(a);
    lemma_custom_app_keys(a);
    assert forall|i: int| 0 <= i < 11 implies lookup(members_of(fields), #[trigger] fields[i].0)
        == fields[i].1 && !repeated(
        members_of(fields),
        fields[i].0,
    ) by {
        lemma_lookup_field(fields, i);
    }
    if a.color is Some {
        lemma_color_wire_forms_agree(a.color->0);
    }
    if a.progress_c is Some {
        lemma_color_wire_forms_agree(a.progress_c->0);
    }
    if a.progress_bc is Some {
        lemma_color_wire_forms_agree(a.progress_bc->0);
    }
    assert(fields[0].0 == "text"@ && fields[1].0 == "icon"@ && fields[2].0 == "color"@);
    assert(fields[3].0 == "duration"@ && fields[4].0 == "progress"@);
    assert(fields[5].0 == "progressC"@ && fields[6].0 == "progressBc"@);
    assert(fields[7].0 == "rainbow"@ && fields[8].0 == "lifetime"@);
    assert(fields[9].0 == "save"@ && fields[10].0 == "pos"@);
}


/// The app that a document holds. The name must be there; the icon and
/// the state may be absent.
pub open spec fn app_info_of(json: JsonView) -> Result<AppInfoView, DecodeFailure> {
    match json {
        JsonView::Object(m) => {
            let name = required_text(m, "name"@);
            let icon = field_u32(m, "icon"@);
            let enabled = field_bool(m, "enabled"@);
            if name is Err {
                Err(name->Err_0)
            } else if icon is Err {
                Err(icon->Err_0)
            } else if enabled is Err {
                Err(enabled->Err_0)
            } else {
                Ok(AppInfoView { name: name->Ok_0, icon: icon->Ok_0, enabled: enabled->Ok_0 })
            }
        },
        _ => Err(DecodeFailure::NotAnObject),
    }
}

impl AppInfo {
    /// Reads an app from its wire form.
    pub fn from_json(json: &Json) -> (r: Result<AppInfo, DecodeError>)
        ensures
            match app_info_of(json@) {
                Ok(a) => r is Ok && r->Ok_0@ == a,
                Err(f) => r is Err && r->Err_0@ == f,
            },
    {
        let m = members_of_object(json)?;
        let name = need_text(m, "name")?;
        let icon = get_u32(m, "icon")?;
        let enabled = get_bool(m, "enabled")?;
        Ok(AppInfo { name, icon, enabled })
    }
}


impl CustomApp {
    /// Reads a value from JSON text: the text must be a JSON document,
    /// and the document must hold the value.
    pub fn from_text(text: &str) -> (r: Result<CustomApp, AwtrixError>)
        ensures
            match json_document(text@) {
                None => r is Err && is_syntax_error(r->Err_0),
                Some(j) => match custom_app_of(j) {
                    Ok(v) => r is Ok && r->Ok_0@ == v,
                    Err(f) => r is Err && is_schema_error(r->Err_0, f),
                },
            },
    {
        let json = Json::parse(text)?;
        match CustomApp::from_json(&json) {
            Ok(v) => Ok(v),
            Err(e) => Err(AwtrixError::Serialization(SerializationError::Schema(e))),
        }
    }

    /// Writes the value as JSON text, which never fails.
    pub fn to_text(&self) -> (r: Result<String, AwtrixError>)
        ensures
            r is Ok,
            r->Ok_0@ == json_text(custom_app_json(self@)),
    {
        self.to_json().to_text()
    }
}

} // verus!
