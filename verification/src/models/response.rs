//! What the device reports of itself: snapshots that are read and never
//! sent.

use serde_json::Number;
use vstd::prelude::*;
use vstd::string::StringExecFns;
use crate::json::{items_view, lemma_array_view, lookup, members_view, Json, JsonView};
use crate::models::app::{app_info_of, AppInfo, AppInfoView};
use crate::text::text_of;
use crate::wire::{
    distinct_keys, encode_i8, encode_text, encode_u8, field_text, field_u16, field_u8, fields_view,
    find_once, get_text, get_u16, get_u8, i8_json, is_absent, lemma_lookup_field, members_of,
    members_of_object, need_bool, need_i8, need_unsigned, object_of, present, repeated,
    required_bool, required_i8, required_unsigned, text_json, u8_json, view_of, DecodeError,
    DecodeFailure, Field,
};

verus! {

/// Which of the three indicator lights are on.
#[derive(Debug, Clone, Copy, PartialEq, Eq, Structural)]
pub struct IndicatorStates {
    pub indicator1: bool,
    pub indicator2: bool,
    pub indicator3: bool,
}

/// The indicator states that a document holds; all three must be there.
pub open spec fn indicator_states_of(json: JsonView) -> Result<IndicatorStates, DecodeFailure> {
    match json {
        JsonView::Object(m) => {
            let first = required_bool(m, "indicator1"@);
            let second = required_bool(m, "indicator2"@);
            let third = required_bool(m, "indicator3"@);
            if first is Err {
                Err(first->Err_0)
            } else if second is Err {
                Err(second->Err_0)
            } else if third is Err {
                Err(third->Err_0)
            } else {
                Ok(
                    IndicatorStates {
                        indicator1: first->Ok_0,
                        indicator2: second->Ok_0,
                        indicator3: third->Ok_0,
                    },
                )
            }
        },
        _ => Err(DecodeFailure::NotAnObject),
    }
}

impl IndicatorStates {
    /// Reads the indicator states from their wire form.
    pub fn from_json(json: &Json) -> (r: Result<IndicatorStates, DecodeError>)
        ensures
            match indicator_states_of(json@) {
                Ok(s) => r == Ok::<IndicatorStates, DecodeError>(s),
                Err(f) => r is Err && r->Err_0@ == f,
            },
    {
        let m = members_of_object(json)?;
        let indicator1 = need_bool(m, "indicator1")?;
        let indicator2 = need_bool(m, "indicator2")?;
        let indicator3 = need_bool(m, "indicator3")?;
        Ok(IndicatorStates { indicator1, indicator2, indicator3 })
    }
}

/// The fields of the indicator states on the wire.
pub open spec fn indicator_states_fields(s: IndicatorStates) -> Seq<Field> {
    seq![
        ("indicator1"@, Some(JsonView::Bool(s.indicator1))),
        ("indicator2"@, Some(JsonView::Bool(s.indicator2))),
        ("indicator3"@, Some(JsonView::Bool(s.indicator3))),
    ]
}

/// The wire form of the indicator states.
pub open spec fn indicator_states_json(s: IndicatorStates) -> JsonView {
    JsonView::Object(members_of(indicator_states_fields(s)))
}

impl IndicatorStates {
    /// The wire form of the indicator states.
    pub fn to_json(&self) -> (json: Json)
        ensures
            json@ == indicator_states_json(*self),
    {
        let fields = vec![
            ("indicator1", Some(Json::Bool(self.indicator1))),
            ("indicator2", Some(Json::Bool(self.indicator2))),
            ("indicator3", Some(Json::Bool(self.indicator3))),
        ];
        assert(fields_view(fields@) =~= indicator_states_fields(*self));
        object_of(fields)
    }
}

/// The indicator states read back from their wire form as they were.
pub proof fn lemma_indicator_states_round_trip(s: IndicatorStates)
    ensures
        indicator_states_of(indicator_states_json(s)) == Ok::<IndicatorStates, DecodeFailure>(s),
{
    let fields = indicator_states_fields(s);
    reveal_strlit("indicator1");
    reveal_strlit("indicator2");
    reveal_strlit("indicator3");
    assert("indicator1"@[9] == '1' && "indicator2"@[9] == '2' && "indicator3"@[9] == '3');
    assert(distinct_keys(fields));
    lemma_lookup_field(fields, 0);
    lemma_lookup_field(fields, 1);
    lemma_lookup_field(fields, 2);
}

/// What a sensor reads: a number, kept as the device sent it.
#[derive(Debug, Clone)]
pub enum Reading {
    /// An integer from 0 up.
    Unsigned(u64),
    /// An integer below 0.
    Negative(i64),
    /// Any other number.
    Real(Number),
}

/// The reading that a document holds, if it is a number.
pub open spec fn as_reading(json: JsonView) -> Option<Reading> {
    match json {
        JsonView::Unsigned(n) => Some(Reading::Unsigned(n)),
        JsonView::Negative(n) => Some(Reading::Negative(n)),
        JsonView::Real(n) => Some(Reading::Real(n)),
        _ => None,
    }
}

/// The wire form of a reading.
pub open spec fn reading_json(reading: Reading) -> JsonView {
    match reading {
        Reading::Unsigned(n) => JsonView::Unsigned(n),
        Reading::Negative(n) => JsonView::Negative(n),
        Reading::Real(n) => JsonView::Real(n),
    }
}

/// The wire form of an optional reading.
pub open spec fn opt_reading_json(reading: Option<Reading>) -> Option<JsonView> {
    match reading {
        Some(r) => Some(reading_json(r)),
        None => None,
    }
}

/// The optional reading that an object holds under `key`.
pub open spec fn field_reading(members: Seq<(Seq<char>, JsonView)>, key: Seq<char>) -> Result<
    Option<Reading>,
    DecodeFailure,
> {
    let value = lookup(members, key);
    if repeated(members, key) {
        Err(DecodeFailure::Duplicate(key))
    } else if is_absent(value) {
        Ok(None)
    } else {
        match as_reading(value->0) {
            Some(r) => Ok(Some(r)),
            None => Err(DecodeFailure::Invalid(key)),
        }
    }
}

/// Reads the optional reading under `key`.
fn get_reading(members: &Vec<(String, Json)>, key: &str) -> (r: Result<
    Option<Reading>,
    DecodeError,
>)
    ensures
        match field_reading(members_view(members@), key@) {
            Ok(v) => r == Ok::<Option<Reading>, DecodeError>(v),
            Err(f) => r is Err && r->Err_0@ == f,
        },
{
    match present(members, key)? {
        None => Ok(None),
        Some(Json::Unsigned(n)) => Ok(Some(Reading::Unsigned(*n))),
        Some(Json::Negative(n)) => Ok(Some(Reading::Negative(*n))),
        Some(Json::Real(n)) => Ok(Some(Reading::Real(n.clone()))),
        Some(_) => Err(DecodeError::Invalid(String::from_str(key))),
    }
}

/// The wire form of an optional reading.
fn encode_reading(reading: &Option<Reading>) -> (r: Option<Json>)
    ensures
        view_of(r) == opt_reading_json(*reading),
{
    match reading {
        Some(Reading::Unsigned(n)) => Some(Json::Unsigned(*n)),
        Some(Reading::Negative(n)) => Some(Json::Negative(*n)),
        Some(Reading::Real(n)) => Some(Json::Real(n.clone())),
        None => None,
    }
}

/// The wire form of optional indicator states.
pub open spec fn opt_indicator_states_json(s: Option<IndicatorStates>) -> Option<JsonView> {
    match s {
        Some(s) => Some(indicator_states_json(s)),
        None => None,
    }
}

/// The optional indicator states that an object holds under `key`.
pub open spec fn field_indicator_states(
    members: Seq<(Seq<char>, JsonView)>,
    key: Seq<char>,
) -> Result<Option<IndicatorStates>, DecodeFailure> {
    let value = lookup(members, key);
    if repeated(members, key) {
        Err(DecodeFailure::Duplicate(key))
    } else if is_absent(value) {
        Ok(None)
    } else {
        match indicator_states_of(value->0) {
            Ok(s) => Ok(Some(s)),
            Err(f) => Err(f),
        }
    }
}

/// Reads the optional indicator states under `key`.
fn get_indicator_states(members: &Vec<(String, Json)>, key: &str) -> (r: Result<
    Option<IndicatorStates>,
    DecodeError,
>)
    ensures
        match field_indicator_states(members_view(members@), key@) {
            Ok(v) => r == Ok::<Option<IndicatorStates>, DecodeError>(v),
            Err(f) => r is Err && r->Err_0@ == f,
        },
{
    match present(members, key)? {
        None => Ok(None),
        Some(j) => match IndicatorStates::from_json(j) {
            Ok(s) => Ok(Some(s)),
            Err(f) => Err(f),
        },
    }
}

/// The wire form of optional indicator states.
fn encode_indicator_states(s: Option<IndicatorStates>) -> (r: Option<Json>)
    ensures
        view_of(r) == opt_indicator_states_json(s),
{
    match s {
        Some(s) => Some(s.to_json()),
        None => None,
    }
}

/// The statistics of a device. What must be there is the uptime, the
/// strength of the signal, the free memory and the state of the matrix;
/// the rest is there where the device has it.
#[derive(Debug, Clone)]
pub struct Stats {
    /// The time since the device started, in seconds.
    pub uptime: u64,
    /// The strength of the WiFi signal, in dBm.
    pub wifi_signal: i8,
    /// The free heap memory, in bytes.
    pub heap: u32,
    /// The temperature, in degrees Celsius.
    pub temperature: Option<Reading>,
    /// The humidity, in percent.
    pub humidity: Option<Reading>,
    /// What the light sensor reads.
    pub ldr: Option<u16>,
    /// The light level, in lux.
    pub lux: Option<Reading>,
    /// The charge of the battery, in percent.
    pub battery: Option<u8>,
    /// Whether the matrix is on.
    pub matrix: bool,
    /// The name of the app on display.
    pub current_app: Option<String>,
    /// Which indicators are on.
    pub indicators: Option<IndicatorStates>,
}

/// `Stats` with its text as a sequence of characters.
pub struct StatsView {
    pub uptime: u64,
    pub wifi_signal: i8,
    pub heap: u32,
    pub temperature: Option<Reading>,
    pub humidity: Option<Reading>,
    pub ldr: Option<u16>,
    pub lux: Option<Reading>,
    pub battery: Option<u8>,
    pub matrix: bool,
    pub current_app: Option<Seq<char>>,
    pub indicators: Option<IndicatorStates>,
}

impl View for Stats {
    type V = StatsView;

    open spec fn view(&self) -> StatsView {
        StatsView {
            uptime: self.uptime,
            wifi_signal: self.wifi_signal,
            heap: self.heap,
            temperature: self.temperature,
            humidity: self.humidity,
            ldr: self.ldr,
            lux: self.lux,
            battery: self.battery,
            matrix: self.matrix,
            current_app: text_of(self.current_app),
            indicators: self.indicators,
        }
    }
}

/// The wire form of an optional 16-bit number.
pub open spec fn u16_json(value: Option<u16>) -> Option<JsonView> {
    match value {
        Some(n) => Some(JsonView::Unsigned(n as u64)),
        None => None,
    }
}

/// The fields of the statistics on the wire, each under its key.
pub open spec fn stats_fields(s: StatsView) -> Seq<Field> {
    seq![
        ("uptime"@, Some(JsonView::Unsigned(s.uptime))),
        ("wifiSignal"@, Some(i8_json(s.wifi_signal))),
        ("heap"@, Some(JsonView::Unsigned(s.heap as u64))),
        ("temperature"@, opt_reading_json(s.temperature)),
        ("humidity"@, opt_reading_json(s.humidity)),
        ("ldr"@, u16_json(s.ldr)),
        ("lux"@, opt_reading_json(s.lux)),
        ("battery"@, u8_json(s.battery)),
        ("matrix"@, Some(JsonView::Bool(s.matrix))),
        ("currentApp"@, text_json(s.current_app)),
        ("indicators"@, opt_indicator_states_json(s.indicators)),
    ]
}

/// The wire form of the statistics.
pub open spec fn stats_json(s: StatsView) -> JsonView {
    JsonView::Object(members_of(stats_fields(s)))
}

/// The statistics that a document holds. A field with more than one
/// member under its key is refused; the first field, in the order of
/// declaration, that is refused, that is missing where it must be there,
/// or whose member does not fit it, makes the failure.
pub open spec fn stats_of(json: JsonView) -> Result<StatsView, DecodeFailure> {
    match json {
        JsonView::Object(m) => {
            let uptime = required_unsigned(m, "uptime"@, u64::MAX);
            let wifi_signal = required_i8(m, "wifiSignal"@);
            let heap = required_unsigned(m, "heap"@, u32::MAX as u64);
            let temperature = field_reading(m, "temperature"@);
            let humidity = field_reading(m, "humidity"@);
            let ldr = field_u16(m, "ldr"@);
            let lux = field_reading(m, "lux"@);
            let battery = field_u8(m, "battery"@);
            let matrix = required_bool(m, "matrix"@);
            let current_app = field_text(m, "currentApp"@);
            let indicators = field_indicator_states(m, "indicators"@);
            if uptime is Err {
                Err(uptime->Err_0)
            } else if wifi_signal is Err {
                Err(wifi_signal->Err_0)
            } else if heap is Err {
                Err(heap->Err_0)
            } else if temperature is Err {
                Err(temperature->Err_0)
            } else if humidity is Err {
                Err(humidity->Err_0)
            } else if ldr is Err {
                Err(ldr->Err_0)
            } else if lux is Err {
                Err(lux->Err_0)
            } else if battery is Err {
                Err(battery->Err_0)
            } else if matrix is Err {
                Err(matrix->Err_0)
            } else if current_app is Err {
                Err(current_app->Err_0)
            } else if indicators is Err {
                Err(indicators->Err_0)
            } else {
                Ok(
                    StatsView {
                        uptime: uptime->Ok_0,
                        wifi_signal: wifi_signal->Ok_0,
                        heap: heap->Ok_0 as u32,
                        temperature: temperature->Ok_0,
                        humidity: humidity->Ok_0,
                        ldr: ldr->Ok_0,
                        lux: lux->Ok_0,
                        battery: battery->Ok_0,
                        matrix: matrix->Ok_0,
                        current_app: current_app->Ok_0,
                        indicators: indicators->Ok_0,
                    },
                )
            }
        },
        _ => Err(DecodeFailure::NotAnObject),
    }
}

impl Stats {
    /// The wire form of the statistics.
    pub fn to_json(&self) -> (json: Json)
        ensures
            json@ == stats_json(self@),
    {
        let fields = vec![
            ("uptime", Some(Json::Unsigned(self.uptime))),
            ("wifiSignal", Some(encode_i8(self.wifi_signal))),
            ("heap", Some(Json::Unsigned(self.heap as u64))),
            ("temperature", encode_reading(&self.temperature)),
            ("humidity", encode_reading(&self.humidity)),
            (
                "ldr",
                match self.ldr {
                    Some(n) => Some(Json::Unsigned(n as u64)),
                    None => None,
                },
            ),
            ("lux", encode_reading(&self.lux)),
            ("battery", encode_u8(self.battery)),
            ("matrix", Some(Json::Bool(self.matrix))),
            ("currentApp", encode_text(&self.current_app)),
            ("indicators", encode_indicator_states(self.indicators)),
        ];
        assert(fields_view(fields@) =~= stats_fields(self@));
        object_of(fields)
    }

    /// Reads the statistics from their wire form.
    pub fn from_json(json: &Json) -> (r: Result<Stats, DecodeError>)
        ensures
            match stats_of(json@) {
                Ok(s) => r is Ok && r->Ok_0@ == s,
                Err(f) => r is Err && r->Err_0@ == f,
            },
    {
        let m = members_of_object(json)?;
        let uptime = need_unsigned(m, "uptime", u64::MAX)?;
        let wifi_signal = need_i8(m, "wifiSignal")?;
        let heap = need_unsigned(m, "heap", u32::MAX as u64)?;
        let temperature = get_reading(m, "temperature")?;
        let humidity = get_reading(m, "humidity")?;
        let ldr = get_u16(m, "ldr")?;
        let lux = get_reading(m, "lux")?;
        let battery = get_u8(m, "battery")?;
        let matrix = need_bool(m, "matrix")?;
        let current_app = get_text(m, "currentApp")?;
        let indicators = get_indicator_states(m, "indicators")?;
        Ok(
            Stats {
                uptime,
                wifi_signal,
                heap: heap as u32,
                temperature,
                humidity,
                ldr,
                lux,
                battery,
                matrix,
                current_app,
                indicators,
            },
        )
    }
}

/// No two fields of the statistics share a key.
pub proof fn lemma_stats_keys(s: StatsView)
    ensures
        distinct_keys(stats_fields(s)),
        stats_fields(s).len() == 11,
{
    reveal_strlit("uptime");
    reveal_strlit("wifiSignal");
    reveal_strlit("heap");
    reveal_strlit("temperature");
    reveal_strlit("humidity");
    reveal_strlit("ldr");
    reveal_strlit("lux");
    reveal_strlit("battery");
    reveal_strlit("matrix");
    reveal_strlit("currentApp");
    reveal_strlit("indicators");
    assert("uptime"@.len() == 6 && "matrix"@.len() == 6);
    assert("uptime"@[0] == 'u' && "matrix"@[0] == 'm');
    assert("wifiSignal"@.len() == 10 && "currentApp"@.len() == 10 && "indicators"@.len() == 10);
    assert("wifiSignal"@[0] == 'w' && "currentApp"@[0] == 'c' && "indicators"@[0] == 'i');
    assert("ldr"@.len() == 3 && "lux"@.len() == 3);
    assert("ldr"@[1] == 'd' && "lux"@[1] == 'u');
    assert("heap"@.len() == 4 && "temperature"@.len() == 11 && "humidity"@.len() == 8);
    assert("battery"@.len() == 7);
}

/// The statistics read back from their wire form as they were.
pub proof fn lemma_stats_round_trip(s: StatsView)
    ensures
        stats_of(stats_json(s)) == Ok::<StatsView, DecodeFailure>(s),
{
    let fields = stats_fields(s);
    lemma_stats_keys(s);
    assert forall|i: int| 0 <= i < 11 implies lookup(members_of(fields), #[trigger] fields[i].0)
        == fields[i].1 && !repeated(
        members_of(fields),
        fields[i].0,
    ) by {
        lemma_lookup_field(fields, i);
    }
    let m = members_of(fields);
    assert(fields[0].0 == "uptime"@ && required_unsigned(m, "uptime"@, u64::MAX) == Ok::<
        u64,
        DecodeFailure,
    >(s.uptime));
    assert(fields[1].0 == "wifiSignal"@ && required_i8(m, "wifiSignal"@) == Ok::<
        i8,
        DecodeFailure,
    >(s.wifi_signal));
    assert(fields[2].0 == "heap"@ && required_unsigned(m, "heap"@, u32::MAX as u64) == Ok::<
        u64,
        DecodeFailure,
    >(s.heap as u64));
    assert(fields[3].0 == "temperature"@ && field_reading(m, "temperature"@) == Ok::<
        Option<Reading>,
        DecodeFailure,
    >(s.temperature));
    assert(fields[4].0 == "humidity"@ && field_reading(m, "humidity"@) == Ok::<
        Option<Reading>,
        DecodeFailure,
    >(s.humidity));
    assert(fields[5].0 == "ldr"@ && field_u16(m, "ldr"@) == Ok::<Option<u16>, DecodeFailure>(
        s.ldr,
    ));
    assert(fields[6].0 == "lux"@ && field_reading(m, "lux"@) == Ok::<
        Option<Reading>,
        DecodeFailure,
    >(s.lux));
    assert(fields[7].0 == "battery"@ && field_u8(m, "battery"@) == Ok::<
        Option<u8>,
        DecodeFailure,
    >(s.battery));
    assert(fields[8].0 == "matrix"@ && required_bool(m, "matrix"@) == Ok::<bool, DecodeFailure>(
        s.matrix,
    ));
    assert(fields[9].0 == "currentApp"@ && field_text(m, "currentApp"@) == Ok::<
        Option<Seq<char>>,
        DecodeFailure,
    >(s.current_app));
    assert(fields[10].0 == "indicators"@ && field_indicator_states(m, "indicators"@) == Ok::<
        Option<IndicatorStates>,
        DecodeFailure,
    >(s.indicators)) by {
        if s.indicators is Some {
            lemma_indicator_states_round_trip(s.indicators->0);
        }
    }
}

/// The app loop: its apps in order, and the name of the one on display,
/// if any.
#[derive(Debug, Clone)]
pub struct LoopInfo {
    pub apps: Vec<AppInfo>,
    pub current: Option<String>,
}

/// `LoopInfo` with its apps and texts as sequences.
pub struct LoopInfoView {
    pub apps: Seq<AppInfoView>,
    pub current: Option<Seq<char>>,
}

/// The views of the given apps.
pub open spec fn apps_view(apps: Seq<AppInfo>) -> Seq<AppInfoView> {
    Seq::new(apps.len(), |i: int| apps[i]@)
}

impl View for LoopInfo {
    type V = LoopInfoView;

    open spec fn view(&self) -> LoopInfoView {
        LoopInfoView { apps: apps_view(self.apps@), current: text_of(self.current) }
    }
}

/// The apps that the given documents hold, in order; the first document
/// that holds none makes the failure.
pub open spec fn app_infos_of(items: Seq<JsonView>) -> Result<Seq<AppInfoView>, DecodeFailure>
    decreases items.len(),
{
    if items.len() == 0 {
        Ok(Seq::empty())
    } else {
        match app_infos_of(items.drop_last()) {
            Err(f) => Err(f),
            Ok(apps) => match app_info_of(items.last()) {
                Ok(app) => Ok(apps.push(app)),
                Err(f) => Err(f),
            },
        }
    }
}

/// The apps that an object must hold, as an array, under `apps`.
pub open spec fn required_apps(members: Seq<(Seq<char>, JsonView)>) -> Result<
    Seq<AppInfoView>,
    DecodeFailure,
> {
    if repeated(members, "apps"@) {
        Err(DecodeFailure::Duplicate("apps"@))
    } else {
        match lookup(members, "apps"@) {
            None => Err(DecodeFailure::Missing("apps"@)),
            Some(JsonView::Array(items)) => app_infos_of(items),
            Some(_) => Err(DecodeFailure::Invalid("apps"@)),
        }
    }
}

/// The app loop that a document holds.
pub open spec fn loop_info_of(json: JsonView) -> Result<LoopInfoView, DecodeFailure> {
    match json {
        JsonView::Object(m) => {
            let apps = required_apps(m);
            let current = field_text(m, "current"@);
            if apps is Err {
                Err(apps->Err_0)
            } else if current is Err {
                Err(current->Err_0)
            } else {
                Ok(LoopInfoView { apps: apps->Ok_0, current: current->Ok_0 })
            }
        },
        _ => Err(DecodeFailure::NotAnObject),
    }
}

/// Reads the apps under `apps`.
fn need_apps(members: &Vec<(String, Json)>) -> (r: Result<Vec<AppInfo>, DecodeError>)
    ensures
        match required_apps(members_view(members@)) {
            Ok(apps) => r is Ok && apps_view(r->Ok_0@) == apps,
            Err(f) => r is Err && r->Err_0@ == f,
        },
{
    let items = match find_once(members, "apps")? {
        None => {
            return Err(DecodeError::Missing(String::from_str("apps")));
        },
        Some(Json::Array(items)) => items,
        Some(_) => {
            return Err(DecodeError::Invalid(String::from_str("apps")));
        },
    };
    proof {
        lemma_array_view(*items);
    }
    let ghost all = items_view(items@);
    let mut apps: Vec<AppInfo> = Vec::new();
    let mut i: usize = 0;
    assert(apps_view(apps@) =~= Seq::<AppInfoView>::empty());
    while i < items.len()
        invariant
            i <= items.len(),
            all == items_view(items@),
            app_infos_of(all.take(i as int)) == Ok::<Seq<AppInfoView>, DecodeFailure>(
                apps_view(apps@),
            ),
            required_apps(members_view(members@)) == app_infos_of(all),
        decreases items.len() - i,
    {
        let ghost next = all.take(i + 1);
        assert(next.drop_last() =~= all.take(i as int));
        let ghost before = apps@;
        match AppInfo::from_json(&items[i]) {
            Ok(app) => {
                let ghost a = app@;
                apps.push(app);
                assert(apps_view(apps@) =~= apps_view(before).push(a));
            },
            Err(f) => {
                proof {
                    lemma_app_infos_failure(all, i as int + 1);
                }
                return Err(f);
            },
        }
        i += 1;
    }
    assert(all.take(items.len() as int) =~= all);
    Ok(apps)
}

/// Where the first `k` documents do not all hold apps, neither do all of
/// them, and the failure is the same.
pub proof fn lemma_app_infos_failure(items: Seq<JsonView>, k: int)
    requires
        0 <= k <= items.len(),
        app_infos_of(items.take(k)) is Err,
    ensures
        app_infos_of(items) == app_infos_of(items.take(k)),
    decreases items.len(),
{
    if k < items.len() {
        assert(items.drop_last().take(k) =~= items.take(k));
        lemma_app_infos_failure(items.drop_last(), k);
    } else {
        assert(items.take(k) =~= items);
    }
}

impl LoopInfo {
    /// Reads the app loop from its wire form.
    pub fn from_json(json: &Json) -> (r: Result<LoopInfo, DecodeError>)
        ensures
            match loop_info_of(json@) {
                Ok(l) => r is Ok && r->Ok_0@ == l,
                Err(f) => r is Err && r->Err_0@ == f,
            },
    {
        let m = members_of_object(json)?;
        let apps = need_apps(m)?;
        let current = get_text(m, "current")?;
        Ok(LoopInfo { apps, current })
    }
}

/// The version of the device's firmware.
#[derive(Debug, Clone)]
pub struct VersionInfo {
    pub version: String,
    pub build: Option<String>,
    pub git_hash: Option<String>,
}

/// The effects that the device knows.
#[derive(Debug, Clone)]
pub struct EffectsList {
    pub effects: Vec<String>,
}

/// The transitions that the device knows.
#[derive(Debug, Clone)]
pub struct TransitionsList {
    pub transitions: Vec<String>,
}

/// What the matrix shows: its size, and its pixels row by row, each with
/// its channels.
#[derive(Debug, Clone)]
pub struct ScreenData {
    pub width: u8,
    pub height: u8,
    pub pixels: Vec<Vec<Vec<u8>>>,
}

} // verus!
