//! The requests of the device's API and the reading of its responses.
//!
//! Each operation of the API is a function from its arguments to the
//! request that carries it out. A response is read in two steps: its
//! status decides between success and an `Api` error, and on success its
//! body is read as what the operation returns.

use vstd::prelude::*;
use vstd::string::StringExecFns;
use crate::client::{url_joined, Client};
use crate::error::{is_schema_error, is_syntax_error, AwtrixError, SerializationError};
use crate::json::{json_document, Json, JsonView};
use crate::models::app::{custom_app_json, CustomApp};
use crate::models::color::Color;
use crate::models::notification::{notification_json, Notification};
use crate::models::response::{loop_info_of, stats_of, LoopInfo, Stats};
use crate::models::settings::{settings_json, settings_of, Settings};
use crate::text::{decimal_text, push_decimal, texts_view};
use crate::wire::{
    encode_color, encode_u8, fields_view, members_of, names_in, names_of, object_of,
    opt_color_json, u8_json, view_of, Field,
};

verus! {

/// How a request is made.
#[derive(Debug, Clone, Copy, PartialEq, Eq, Structural)]
pub enum Method {
    Get,
    Post,
}

/// A request to the device: where it goes, and the JSON document that it
/// carries, if any.
#[derive(Debug)]
pub struct Request {
    pub method: Method,
    pub url: String,
    pub body: Option<Json>,
}

/// `Request` with its URL and body as sequences.
pub struct RequestView {
    pub method: Method,
    pub url: Seq<char>,
    pub body: Option<JsonView>,
}

impl View for Request {
    type V = RequestView;

    open spec fn view(&self) -> RequestView {
        RequestView { method: self.method, url: self.url@, body: view_of(self.body) }
    }
}

/// The request that goes to `endpoint` of the device at `base`; `None`
/// where the endpoint makes no URL.
pub open spec fn request_to(
    base: Seq<char>,
    method: Method,
    endpoint: Seq<char>,
    body: Option<JsonView>,
) -> Option<RequestView> {
    match url_joined(base, endpoint) {
        Some(url) => Some(RequestView { method, url, body }),
        None => None,
    }
}

/// Whether `r` is the request expected, or, where none can be made, a
/// `Url` error.
pub open spec fn is_request(
    r: Result<Request, AwtrixError>,
    expected: Option<RequestView>,
) -> bool {
    match expected {
        Some(request) => r is Ok && r->Ok_0@ == request,
        None => r is Err && r->Err_0 is Url,
    }
}

/// The object with the given fields.
pub open spec fn payload(fields: Seq<Field>) -> Option<JsonView> {
    Some(JsonView::Object(members_of(fields)))
}

/// The fields of a mood light on the wire.
pub open spec fn mood_light_fields(
    brightness: Option<u8>,
    color: Option<Color>,
    kelvin: Option<u16>,
) -> Seq<Field> {
    seq![
        ("brightness"@, u8_json(brightness)),
        ("color"@, opt_color_json(color)),
        (
            "kelvin"@,
            match kelvin {
                Some(k) => Some(JsonView::Unsigned(k as u64)),
                None => None,
            },
        ),
    ]
}

/// The path of the endpoint of one custom app.
pub open spec fn custom_app_path(name: Seq<char>) -> Seq<char> {
    "/api/custom?name="@ + name
}

/// The path of the endpoint of one indicator.
pub open spec fn indicator_path(indicator: u8) -> Seq<char> {
    "/api/indicator"@ + decimal_text(indicator as nat)
}

/// The object with the one text `value` under `key`.
fn text_payload(key: &'static str, value: &str) -> (json: Json)
    ensures
        Some(json@) == payload(seq![(key@, Some(JsonView::Text(value@)))]),
{
    let fields = vec![(key, Some(Json::Text(String::from_str(value))))];
    assert(fields_view(fields@) =~= seq![(key@, Some(JsonView::Text(value@)))]);
    object_of(fields)
}

/// The object without members.
fn empty_payload() -> (json: Json)
    ensures
        Some(json@) == payload(Seq::empty()),
{
    let fields: Vec<(&'static str, Option<Json>)> = Vec::new();
    object_of(fields)
}

impl Client {
    /// The request that reads `endpoint`.
    pub fn get(&self, endpoint: &str) -> (r: Result<Request, AwtrixError>)
        ensures
            is_request(r, request_to(self.base(), Method::Get, endpoint@, None)),
    {
        let url = self.build_url(endpoint)?;
        Ok(Request { method: Method::Get, url, body: None })
    }

    /// The request that sends `payload` to `endpoint`.
    pub fn post_json(&self, endpoint: &str, payload: Json) -> (r: Result<Request, AwtrixError>)
        ensures
            is_request(r, request_to(self.base(), Method::Post, endpoint@, Some(payload@))),
    {
        let url = self.build_url(endpoint)?;
        Ok(Request { method: Method::Post, url, body: Some(payload) })
    }

    /// The request that calls on `endpoint` without sending anything.
    pub fn post(&self, endpoint: &str) -> (r: Result<Request, AwtrixError>)
        ensures
            is_request(r, request_to(self.base(), Method::Post, endpoint@, None)),
    {
        let url = self.build_url(endpoint)?;
        Ok(Request { method: Method::Post, url, body: None })
    }

    /// Switches the matrix on or off.
    pub fn set_power(&self, power_on: bool) -> (r: Result<Request, AwtrixError>)
        ensures
            is_request(
                r,
                request_to(
                    self.base(),
                    Method::Post,
                    "/api/power"@,
                    payload(seq![("power"@, Some(JsonView::Bool(power_on)))]),
                ),
            ),
    {
        let fields = vec![("power", Some(Json::Bool(power_on)))];
        assert(fields_view(fields@) =~= seq![("power"@, Some(JsonView::Bool(power_on)))]);
        self.post_json("/api/power", object_of(fields))
    }

    /// Puts the device to sleep for `duration` seconds.
    pub fn set_sleep(&self, duration: u32) -> (r: Result<Request, AwtrixError>)
        ensures
            is_request(
                r,
                request_to(
                    self.base(),
                    Method::Post,
                    "/api/sleep"@,
                    payload(seq![("sleep"@, Some(JsonView::Unsigned(duration as u64)))]),
                ),
            ),
    {
        let fields = vec![("sleep", Some(Json::Unsigned(duration as u64)))];
        assert(fields_view(fields@) =~= seq![
            ("sleep"@, Some(JsonView::Unsigned(duration as u64))),
        ]);
        self.post_json("/api/sleep", object_of(fields))
    }

    /// Shows a notification.
    pub fn notify(&self, notification: &Notification) -> (r: Result<Request, AwtrixError>)
        ensures
            is_request(
                r,
                request_to(
                    self.base(),
                    Method::Post,
                    "/api/notify"@,
                    Some(notification_json(notification@)),
                ),
            ),
    {
        self.post_json("/api/notify", notification.to_json())
    }

    /// Dismisses the notification on display.
    pub fn dismiss_notification(&self) -> (r: Result<Request, AwtrixError>)
        ensures
            is_request(r, request_to(self.base(), Method::Post, "/api/notify/dismiss"@, None)),
    {
        self.post("/api/notify/dismiss")
    }

    /// Asks for the device's statistics.
    pub fn get_stats(&self) -> (r: Result<Request, AwtrixError>)
        ensures
            is_request(r, request_to(self.base(), Method::Get, "/api/stats"@, None)),
    {
        self.get("/api/stats")
    }

    /// Asks for the version of the firmware.
    pub fn get_version(&self) -> (r: Result<Request, AwtrixError>)
        ensures
            is_request(r, request_to(self.base(), Method::Get, "/version"@, None)),
    {
        self.get("/version")
    }

    /// Asks for the names of the effects.
    pub fn get_effects(&self) -> (r: Result<Request, AwtrixError>)
        ensures
            is_request(r, request_to(self.base(), Method::Get, "/api/effects"@, None)),
    {
        self.get("/api/effects")
    }

    /// Asks for the names of the transitions.
    pub fn get_transitions(&self) -> (r: Result<Request, AwtrixError>)
        ensures
            is_request(r, request_to(self.base(), Method::Get, "/api/transitions"@, None)),
    {
        self.get("/api/transitions")
    }

    /// Asks for the app loop.
    pub fn get_apps(&self) -> (r: Result<Request, AwtrixError>)
        ensures
            is_request(r, request_to(self.base(), Method::Get, "/api/loop"@, None)),
    {
        self.get("/api/loop")
    }

    /// Moves on to the next app of the loop.
    pub fn next_app(&self) -> (r: Result<Request, AwtrixError>)
        ensures
            is_request(r, request_to(self.base(), Method::Post, "/api/nextapp"@, None)),
    {
        self.post("/api/nextapp")
    }

    /// Moves back to the previous app of the loop.
    pub fn previous_app(&self) -> (r: Result<Request, AwtrixError>)
        ensures
            is_request(r, request_to(self.base(), Method::Post, "/api/previousapp"@, None)),
    {
        self.post("/api/previousapp")
    }

    /// Switches to the app called `name`.
    pub fn switch_app(&self, name: &str) -> (r: Result<Request, AwtrixError>)
        ensures
            is_request(
                r,
                request_to(
                    self.base(),
                    Method::Post,
                    "/api/switch"@,
                    payload(seq![("name"@, Some(JsonView::Text(name@)))]),
                ),
            ),
    {
        self.post_json("/api/switch", text_payload("name", name))
    }

    /// Creates the custom app called `name`, or replaces it.
    pub fn create_custom_app(&self, name: &str, app: &CustomApp) -> (r: Result<
        Request,
        AwtrixError,
    >)
        ensures
            is_request(
                r,
                request_to(
                    self.base(),
                    Method::Post,
                    custom_app_path(name@),
                    Some(custom_app_json(app@)),
                ),
            ),
    {
        let path = String::from_str("/api/custom?name=").concat(name);
        self.post_json(path.as_str(), app.to_json())
    }

    /// Deletes the custom app called `name`, by sending it an object
    /// without members.
    pub fn delete_custom_app(&self, name: &str) -> (r: Result<Request, AwtrixError>)
        ensures
            is_request(
                r,
                request_to(
                    self.base(),
                    Method::Post,
                    custom_app_path(name@),
                    payload(Seq::empty()),
                ),
            ),
    {
        let path = String::from_str("/api/custom?name=").concat(name);
        self.post_json(path.as_str(), empty_payload())
    }

    /// Sets the mood light. Only what is given is sent.
    pub fn set_mood_light(
        &self,
        brightness: Option<u8>,
        color: Option<Color>,
        kelvin: Option<u16>,
    ) -> (r: Result<Request, AwtrixError>)
        ensures
            is_request(
                r,
                request_to(
                    self.base(),
                    Method::Post,
                    "/api/moodlight"@,
                    payload(mood_light_fields(brightness, color, kelvin)),
                ),
            ),
    {
        let fields = vec![
            ("brightness", encode_u8(brightness)),
            ("color", encode_color(color)),
            (
                "kelvin",
                match kelvin {
                    Some(k) => Some(Json::Unsigned(k as u64)),
                    None => None,
                },
            ),
        ];
        assert(fields_view(fields@) =~= mood_light_fields(brightness, color, kelvin));
        self.post_json("/api/moodlight", object_of(fields))
    }

    /// Lights indicator number `indicator` in `color`, or switches it off
    /// where no color is given, by sending it an object without members.
    pub fn set_indicator(&self, indicator: u8, color: Option<Color>) -> (r: Result<
        Request,
        AwtrixError,
    >)
        ensures
            is_request(
                r,
                request_to(
                    self.base(),
                    Method::Post,
                    indicator_path(indicator),
                    payload(seq![("color"@, opt_color_json(color))]),
                ),
            ),
    {
        let mut path = String::from_str("/api/indicator");
        push_decimal(&mut path, indicator as u64);
        let fields = vec![("color", encode_color(color))];
        assert(fields_view(fields@) =~= seq![("color"@, opt_color_json(color))]);
        self.post_json(path.as_str(), object_of(fields))
    }

    /// Plays the sound called `sound`.
    pub fn play_sound(&self, sound: &str) -> (r: Result<Request, AwtrixError>)
        ensures
            is_request(
                r,
                request_to(
                    self.base(),
                    Method::Post,
                    "/api/sound"@,
                    payload(seq![("sound"@, Some(JsonView::Text(sound@)))]),
                ),
            ),
    {
        self.post_json("/api/sound", text_payload("sound", sound))
    }

    /// Plays a melody written in RTTTL.
    pub fn play_rtttl(&self, rtttl: &str) -> (r: Result<Request, AwtrixError>)
        ensures
            is_request(
                r,
                request_to(
                    self.base(),
                    Method::Post,
                    "/api/rtttl"@,
                    payload(seq![("rtttl"@, Some(JsonView::Text(rtttl@)))]),
                ),
            ),
    {
        self.post_json("/api/rtttl", text_payload("rtttl", rtttl))
    }

    /// Plays the R2-D2 sound.
    pub fn play_r2d2(&self) -> (r: Result<Request, AwtrixError>)
        ensures
            is_request(r, request_to(self.base(), Method::Post, "/api/r2d2"@, None)),
    {
        self.post("/api/r2d2")
    }

    /// Asks for the settings.
    pub fn get_settings(&self) -> (r: Result<Request, AwtrixError>)
        ensures
            is_request(r, request_to(self.base(), Method::Get, "/api/settings"@, None)),
    {
        self.get("/api/settings")
    }

    /// Sends settings. Only the fields that are set are sent.
    pub fn update_settings(&self, settings: &Settings) -> (r: Result<Request, AwtrixError>)
        ensures
            is_request(
                r,
                request_to(
                    self.base(),
                    Method::Post,
                    "/api/settings"@,
                    Some(settings_json(settings@)),
                ),
            ),
    {
        self.post_json("/api/settings", settings.to_json())
    }

    /// Restarts the device.
    pub fn reboot(&self) -> (r: Result<Request, AwtrixError>)
        ensures
            is_request(r, request_to(self.base(), Method::Post, "/api/reboot"@, None)),
    {
        self.post("/api/reboot")
    }

    /// Erases everything that the device has stored.
    pub fn factory_reset(&self) -> (r: Result<Request, AwtrixError>)
        ensures
            is_request(r, request_to(self.base(), Method::Post, "/api/erase"@, None)),
    {
        self.post("/api/erase")
    }

    /// Puts the settings back to their defaults.
    pub fn reset_settings(&self) -> (r: Result<Request, AwtrixError>)
        ensures
            is_request(r, request_to(self.base(), Method::Post, "/api/resetSettings"@, None)),
    {
        self.post("/api/resetSettings")
    }

    /// Has the device store its configuration.
    pub fn save_config(&self) -> (r: Result<Request, AwtrixError>)
        ensures
            is_request(r, request_to(self.base(), Method::Post, "/save"@, None)),
    {
        self.post("/save")
    }
}

/// What came back for a request: the status, and the body as text, or
/// no body where it could not be read.
#[derive(Debug, Clone)]
pub struct Response {
    pub status: u16,
    pub body: Option<String>,
}

/// Whether a status reports success.
pub open spec fn is_success(status: u16) -> bool {
    200 <= status <= 299
}

/// What the device had to say with a status that reports no success: the
/// body, or a fixed remark where there is none.
pub open spec fn failure_text(body: Option<String>) -> Seq<char> {
    match body {
        Some(text) => text@,
        None => "Unknown error"@,
    }
}

impl Client {
    /// Sorts a response by its status: one that reports success is handed
    /// on as it is, any other becomes an `Api` error with the status and
    /// the text of the body.
    pub fn handle_response(&self, response: Response) -> (r: Result<Response, AwtrixError>)
        ensures
            is_success(response.status) ==> r == Ok::<Response, AwtrixError>(response),
            !is_success(response.status) ==> (r matches Err(AwtrixError::Api { message, code })
                && code == response.status && message@ == failure_text(response.body)),
    {
        if 200 <= response.status && response.status <= 299 {
            Ok(response)
        } else {
            let code = response.status;
            let message = match response.body {
                Some(text) => text,
                None => String::from_str("Unknown error"),
            };
            Err(AwtrixError::Api { message, code })
        }
    }
}

/// The text of a body.
fn body_text(response: &Response) -> (r: Result<&str, AwtrixError>)
    ensures
        match response.body {
            Some(text) => r is Ok && r->Ok_0@ == text@,
            None => r is Err && r->Err_0 is Http,
        },
{
    match &response.body {
        Some(text) => Ok(text.as_str()),
        None => Err(AwtrixError::Http(String::from_str("the response body could not be read"))),
    }
}

/// The document in a body.
fn body_json(response: &Response) -> (r: Result<Json, AwtrixError>)
    ensures
        match response.body {
            Some(text) => match json_document(text@) {
                Some(j) => r is Ok && r->Ok_0@ == j,
                None => r is Err && is_syntax_error(r->Err_0),
            },
            None => r is Err && r->Err_0 is Http,
        },
{
    let text = body_text(response)?;
    Json::parse(text)
}

impl Response {
    /// The body as it is: the answer to a request for the version, and
    /// what every other reading starts from.
    pub fn text(&self) -> (r: Result<String, AwtrixError>)
        ensures
            match self.body {
                Some(text) => r is Ok && r->Ok_0@ == text@,
                None => r is Err && r->Err_0 is Http,
            },
    {
        let text = body_text(self)?;
        Ok(String::from_str(text))
    }

    /// The names in the body: the answer to a request for the effects or
    /// for the transitions.
    pub fn names(&self) -> (r: Result<Vec<String>, AwtrixError>)
        ensures
            match self.body {
                Some(text) => match json_document(text@) {
                    Some(j) => r is Ok && texts_view(r->Ok_0@) == names_of(j),
                    None => r is Err && is_syntax_error(r->Err_0),
                },
                None => r is Err && r->Err_0 is Http,
            },
    {
        let json = body_json(self)?;
        Ok(names_in(&json))
    }

    /// The app loop in the body.
    pub fn apps(&self) -> (r: Result<LoopInfo, AwtrixError>)
        ensures
            match self.body {
                Some(text) => match json_document(text@) {
                    Some(j) => match loop_info_of(j) {
                        Ok(l) => r is Ok && r->Ok_0@ == l,
                        Err(f) => r is Err && is_schema_error(r->Err_0, f),
                    },
                    None => r is Err && is_syntax_error(r->Err_0),
                },
                None => r is Err && r->Err_0 is Http,
            },
    {
        let json = body_json(self)?;
        match LoopInfo::from_json(&json) {
            Ok(l) => Ok(l),
            Err(e) => Err(AwtrixError::Serialization(SerializationError::Schema(e))),
        }
    }

    /// The statistics in the body.
    pub fn stats(&self) -> (r: Result<Stats, AwtrixError>)
        ensures
            match self.body {
                Some(text) => match json_document(text@) {
                    Some(j) => match stats_of(j) {
                        Ok(s) => r is Ok && r->Ok_0@ == s,
                        Err(f) => r is Err && is_schema_error(r->Err_0, f),
                    },
                    None => r is Err && is_syntax_error(r->Err_0),
                },
                None => r is Err && r->Err_0 is Http,
            },
    {
        let json = body_json(self)?;
        match Stats::from_json(&json) {
            Ok(s) => Ok(s),
            Err(e) => Err(AwtrixError::Serialization(SerializationError::Schema(e))),
        }
    }

    /// The settings in the body.
    pub fn settings(&self) -> (r: Result<Settings, AwtrixError>)
        ensures
            match self.body {
                Some(text) => match json_document(text@) {
                    Some(j) => match settings_of(j) {
                        Ok(s) => r is Ok && r->Ok_0@ == s,
                        Err(f) => r is Err && is_schema_error(r->Err_0, f),
                    },
                    None => r is Err && is_syntax_error(r->Err_0),
                },
                None => r is Err && r->Err_0 is Http,
            },
    {
        let json = body_json(self)?;
        match Settings::from_json(&json) {
            Ok(s) => Ok(s),
            Err(e) => Err(AwtrixError::Serialization(SerializationError::Schema(e))),
        }
    }
}

} // verus!
