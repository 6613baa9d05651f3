use awtrix3::client::http::{Method, Request, Response};
use awtrix3::client::{Client, ClientBuilder};
use awtrix3::error::SerializationError;
use awtrix3::models::app::CustomApp;
use awtrix3::models::color::Color;
use awtrix3::models::notification::Notification;
use awtrix3::json::Json;
use awtrix3::models::response::{IndicatorStates, Reading, Stats};
use awtrix3::models::settings::Settings;
use awtrix3::wire::DecodeError;
use awtrix3::AwtrixError;

fn device() -> Client {
    Client::new("192.168.1.100").unwrap()
}

fn body_of(request: &Request) -> Option<String> {
    request.body.as_ref().map(|json| json.to_text().unwrap())
}

fn check(request: Result<Request, AwtrixError>, method: Method, url: &str, body: Option<&str>) {
    let request = request.unwrap();
    assert_eq!(request.method, method);
    assert_eq!(request.url, url);
    assert_eq!(body_of(&request).as_deref(), body);
}

#[test]
fn http_test_client_creation() {
    let client = Client::new("192.168.1.100").unwrap();
    assert_eq!(client.base_url(), "http://192.168.1.100/");
}

#[test]
fn test_url_building() {
    let client = Client::new("192.168.1.100").unwrap();
    let url = client.build_url("/api/stats").unwrap();
    assert_eq!(url.as_str(), "http://192.168.1.100/api/stats");
}

#[test]
fn integration_tests_test_client_creation() {
    let client = Client::new("192.168.1.100");
    assert!(client.is_ok());

    let client = Client::new("awtrix.local");
    assert!(client.is_ok());
}

#[test]
fn a_host_with_its_scheme_is_taken_as_it_is() {
    assert_eq!(Client::new("http://10.0.0.1").unwrap().base_url(), "http://10.0.0.1/");
    assert_eq!(Client::new("https://clock.example").unwrap().base_url(), "https://clock.example/");
    assert_eq!(Client::new("https://clock.example:8443/x").unwrap().base_url(), "https://clock.example:8443/x");
    assert_eq!(Client::new("clock.local:8080").unwrap().base_url(), "http://clock.local:8080/");
    assert_eq!(Client::new("ftp://files").unwrap().base_url(), "http://ftp//files");
    assert_eq!(Client::new("HTTP://Upper.Example").unwrap().base_url(), "http://http//Upper.Example");
}

#[test]
fn a_host_that_makes_no_url_is_refused() {
    for host in ["", "http://", "https://", "a b", "http://[::1", "host:port"] {
        assert!(matches!(Client::new(host), Err(AwtrixError::Url(_))), "{:?}", host);
    }
    assert_eq!(Client::new("").unwrap_err().message(), "Invalid URL");
}

#[test]
fn an_endpoint_is_taken_against_the_base() {
    let client = device();
    assert_eq!(client.build_url("version").unwrap(), "http://192.168.1.100/version");
    assert_eq!(client.build_url("/api/custom?name=my app").unwrap(), "http://192.168.1.100/api/custom?name=my%20app");
    assert_eq!(client.build_url("").unwrap(), "http://192.168.1.100/");
    assert_eq!(client.build_url("http://other/x").unwrap(), "http://other/x");
    assert!(matches!(client.build_url("//"), Err(AwtrixError::Url(_))));
    assert!(matches!(client.build_url("http://[x"), Err(AwtrixError::Url(_))));
    assert!(matches!(client.get("//"), Err(AwtrixError::Url(_))));
    assert!(matches!(client.post("//"), Err(AwtrixError::Url(_))));
}

#[test]
fn each_operation_has_its_method_path_and_body() {
    let c = device();
    let base = "http://192.168.1.100";
    check(c.set_power(true), Method::Post, &format!("{}/api/power", base), Some("{\"power\":true}"));
    check(c.set_power(false), Method::Post, &format!("{}/api/power", base), Some("{\"power\":false}"));
    check(c.set_sleep(90), Method::Post, &format!("{}/api/sleep", base), Some("{\"sleep\":90}"));
    let n = Notification::builder().text("hi").icon(5).build();
    check(c.notify(&n), Method::Post, &format!("{}/api/notify", base), Some("{\"icon\":5,\"text\":\"hi\"}"));
    check(c.dismiss_notification(), Method::Post, &format!("{}/api/notify/dismiss", base), None);
    check(c.get_stats(), Method::Get, &format!("{}/api/stats", base), None);
    check(c.get_version(), Method::Get, &format!("{}/version", base), None);
    check(c.get_effects(), Method::Get, &format!("{}/api/effects", base), None);
    check(c.get_transitions(), Method::Get, &format!("{}/api/transitions", base), None);
    check(c.get_apps(), Method::Get, &format!("{}/api/loop", base), None);
    check(c.next_app(), Method::Post, &format!("{}/api/nextapp", base), None);
    check(c.previous_app(), Method::Post, &format!("{}/api/previousapp", base), None);
    check(c.switch_app("Time"), Method::Post, &format!("{}/api/switch", base), Some("{\"name\":\"Time\"}"));
    let mut app = CustomApp::new();
    app.text = Some("x".to_string());
    check(c.create_custom_app("stock", &app), Method::Post, &format!("{}/api/custom?name=stock", base), Some("{\"text\":\"x\"}"));
    check(c.delete_custom_app("stock"), Method::Post, &format!("{}/api/custom?name=stock", base), Some("{}"));
    check(c.play_sound("beep"), Method::Post, &format!("{}/api/sound", base), Some("{\"sound\":\"beep\"}"));
    check(c.play_rtttl("a:b"), Method::Post, &format!("{}/api/rtttl", base), Some("{\"rtttl\":\"a:b\"}"));
    check(c.play_r2d2(), Method::Post, &format!("{}/api/r2d2", base), None);
    check(c.get_settings(), Method::Get, &format!("{}/api/settings", base), None);
    let mut s = Settings::new();
    s.brightness = Some(9);
    check(c.update_settings(&s), Method::Post, &format!("{}/api/settings", base), Some("{\"brightness\":9}"));
    check(c.reboot(), Method::Post, &format!("{}/api/reboot", base), None);
    check(c.factory_reset(), Method::Post, &format!("{}/api/erase", base), None);
    check(c.reset_settings(), Method::Post, &format!("{}/api/resetSettings", base), None);
    check(c.save_config(), Method::Post, &format!("{}/save", base), None);
}

#[test]
fn the_mood_light_sends_only_what_is_given() {
    let c = device();
    let url = "http://192.168.1.100/api/moodlight";
    check(c.set_mood_light(None, None, None), Method::Post, url, Some("{}"));
    check(c.set_mood_light(Some(50), None, None), Method::Post, url, Some("{\"brightness\":50}"));
    check(c.set_mood_light(None, Some(Color::red()), None), Method::Post, url, Some("{\"color\":[255,0,0]}"));
    check(c.set_mood_light(None, None, Some(2300)), Method::Post, url, Some("{\"kelvin\":2300}"));
    check(
        c.set_mood_light(Some(255), Some(Color::new(1, 2, 3)), Some(6500)),
        Method::Post,
        url,
        Some("{\"brightness\":255,\"color\":[1,2,3],\"kelvin\":6500}"),
    );
}

#[test]
fn an_indicator_is_lit_or_switched_off() {
    let c = device();
    check(c.set_indicator(1, Some(Color::green())), Method::Post, "http://192.168.1.100/api/indicator1", Some("{\"color\":[0,255,0]}"));
    check(c.set_indicator(3, None), Method::Post, "http://192.168.1.100/api/indicator3", Some("{}"));
    check(c.set_indicator(255, None), Method::Post, "http://192.168.1.100/api/indicator255", Some("{}"));
    check(c.set_indicator(0, None), Method::Post, "http://192.168.1.100/api/indicator0", Some("{}"));
}

#[test]
fn a_status_without_success_becomes_an_api_error() {
    let c = device();
    let response = Response { status: 400, body: Some("bad request".to_string()) };
    match c.handle_response(response) {
        Err(AwtrixError::Api { message, code }) => {
            assert_eq!(message, "bad request");
            assert_eq!(code, 400);
        }
        other => panic!("unexpected: {:?}", other),
    }
    match c.handle_response(Response { status: 500, body: None }) {
        Err(AwtrixError::Api { message, code }) => {
            assert_eq!(message, "Unknown error");
            assert_eq!(code, 500);
        }
        other => panic!("unexpected: {:?}", other),
    }
    for status in [0u16, 100, 199, 300, 301, 404, 503, 65535] {
        assert!(matches!(
            c.handle_response(Response { status, body: Some(String::new()) }),
            Err(AwtrixError::Api { .. })
        ));
    }
    let error = c.handle_response(Response { status: 404, body: Some("no such app".to_string()) }).unwrap_err();
    assert_eq!(error.message(), "API error: no such app (code: 404)");
}

#[test]
fn a_status_with_success_hands_the_response_on() {
    let c = device();
    for status in [200u16, 201, 204, 299] {
        let response = c.handle_response(Response { status, body: Some("x".to_string()) }).unwrap();
        assert_eq!(response.status, status);
        assert_eq!(response.body, Some("x".to_string()));
    }
    let response = c.handle_response(Response { status: 200, body: None }).unwrap();
    assert!(response.body.is_none());
}

#[test]
fn a_body_is_read_as_what_was_asked_for() {
    let version = Response { status: 200, body: Some("0.96\n".to_string()) };
    assert_eq!(version.text().unwrap(), "0.96\n");
    let names = Response { status: 200, body: Some("[\"Fade\",5,\"Matrix\",null,[\"x\"]]".to_string()) };
    assert_eq!(names.names().unwrap(), vec!["Fade".to_string(), "Matrix".to_string()]);
    let not_a_list = Response { status: 200, body: Some("{\"effects\":[\"Fade\"]}".to_string()) };
    assert_eq!(not_a_list.names().unwrap(), Vec::<String>::new());
    let settings = Response { status: 200, body: Some("{\"brightness\":12,\"unknown\":1}".to_string()) };
    assert_eq!(settings.settings().unwrap().brightness, Some(12));
    let apps = Response {
        status: 200,
        body: Some("{\"apps\":[{\"name\":\"Time\"},{\"name\":\"x\",\"icon\":7,\"enabled\":false}],\"current\":\"Time\"}".to_string()),
    };
    let info = apps.apps().unwrap();
    assert_eq!(info.apps.len(), 2);
    assert_eq!(info.apps[0].name, "Time");
    assert_eq!(info.apps[0].icon, None);
    assert_eq!(info.apps[0].enabled, None);
    assert_eq!(info.apps[1].name, "x");
    assert_eq!(info.apps[1].icon, Some(7));
    assert_eq!(info.apps[1].enabled, Some(false));
    assert_eq!(info.current, Some("Time".to_string()));
    let idle = Response { status: 200, body: Some("{\"apps\":[],\"current\":null}".to_string()) };
    assert!(idle.apps().unwrap().current.is_none());
}

#[test]
fn a_body_that_cannot_be_read_is_an_error() {
    let absent = Response { status: 200, body: None };
    assert!(matches!(absent.text(), Err(AwtrixError::Http(_))));
    assert!(matches!(absent.names(), Err(AwtrixError::Http(_))));
    assert!(matches!(absent.apps(), Err(AwtrixError::Http(_))));
    assert!(matches!(absent.settings(), Err(AwtrixError::Http(_))));
    assert_eq!(absent.text().unwrap_err().message(), "HTTP request failed");
    let broken = Response { status: 200, body: Some("{".to_string()) };
    assert!(matches!(broken.names(), Err(AwtrixError::Serialization(SerializationError::Syntax(_)))));
    assert!(matches!(broken.apps(), Err(AwtrixError::Serialization(SerializationError::Syntax(_)))));
    assert!(matches!(broken.settings(), Err(AwtrixError::Serialization(SerializationError::Syntax(_)))));
    assert_eq!(broken.settings().unwrap_err().message(), "Serialization error");
    let cases = [
        ("{}", "apps", true),
        ("{\"apps\":5}", "apps", false),
        ("{\"apps\":[{}]}", "name", true),
        ("{\"apps\":[{\"name\":null}]}", "name", false),
        ("{\"apps\":[{\"name\":\"a\"},{\"name\":\"b\",\"icon\":\"x\"}]}", "icon", false),
        ("{\"apps\":[],\"current\":5}", "current", false),
    ];
    for (text, field, missing) in cases {
        let response = Response { status: 200, body: Some(text.to_string()) };
        match response.apps() {
            Err(AwtrixError::Serialization(SerializationError::Schema(DecodeError::Missing(key)))) => {
                assert!(missing, "{}", text);
                assert_eq!(key, field);
            }
            Err(AwtrixError::Serialization(SerializationError::Schema(DecodeError::Invalid(key)))) => {
                assert!(!missing, "{}", text);
                assert_eq!(key, field);
            }
            other => panic!("unexpected for {}: {:?}", text, other),
        }
    }
    let list = Response { status: 200, body: Some("{\"apps\":[5]}".to_string()) };
    assert!(matches!(
        list.apps(),
        Err(AwtrixError::Serialization(SerializationError::Schema(DecodeError::NotAnObject)))
    ));
}

#[test]
fn a_builder_needs_a_host() {
    match ClientBuilder::new().build() {
        Err(AwtrixError::Config(message)) => assert_eq!(message, "Host is required"),
        other => panic!("unexpected: {:?}", other),
    }
    assert_eq!(
        ClientBuilder::new().build().unwrap_err().message(),
        "Invalid configuration: Host is required"
    );
    let client = ClientBuilder::new().host("10.1.2.3").build().unwrap();
    assert_eq!(client.base_url(), "http://10.1.2.3/");
    assert!(matches!(ClientBuilder::new().host("").build(), Err(AwtrixError::Url(_))));
}

#[test]
fn a_builder_keeps_what_it_is_given() {
    let builder = ClientBuilder::new();
    assert_eq!(builder.timeout_secs(), 30);
    assert_eq!(builder.retries(), 3);
    assert_eq!(builder.agent(), "awtrix3-rs/1.0.0");
    let builder = ClientBuilder::default().timeout(5).retry_count(0).user_agent("me/1");
    assert_eq!(builder.timeout_secs(), 5);
    assert_eq!(builder.retries(), 0);
    assert_eq!(builder.agent(), "me/1");
}

#[test]
fn errors_say_what_went_wrong() {
    assert_eq!(
        AwtrixError::DeviceUnreachable { device: "desk".to_string(), host: "10.0.0.9".to_string() }.message(),
        "Device 'desk' not reachable at 10.0.0.9"
    );
    assert_eq!(AwtrixError::InvalidIcon(70000).message(), "Invalid icon ID: 70000");
    assert_eq!(AwtrixError::InvalidIcon(0).message(), "Invalid icon ID: 0");
    assert_eq!(AwtrixError::Io("gone".to_string()).message(), "IO error");
    assert_eq!(AwtrixError::Other("whatever".to_string()).message(), "whatever");
    assert_eq!(AwtrixError::Http("timeout".to_string()).message(), "HTTP request failed");
    assert_eq!(
        AwtrixError::Api { message: String::new(), code: 65535 }.message(),
        "API error:  (code: 65535)"
    );
}

#[test]
fn statistics_are_read_from_a_body() {
    let body = "{\"uptime\":86400,\"wifiSignal\":-61,\"heap\":123456,\"temperature\":23.5,\"humidity\":40,\"ldr\":512,\"lux\":1.25,\"battery\":87,\"matrix\":true,\"currentApp\":\"Time\",\"indicators\":{\"indicator1\":true,\"indicator2\":false,\"indicator3\":false},\"more\":[]}";
    let stats = Response { status: 200, body: Some(body.to_string()) }.stats().unwrap();
    assert_eq!(stats.uptime, 86400);
    assert_eq!(stats.wifi_signal, -61);
    assert_eq!(stats.heap, 123456);
    assert!(matches!(&stats.temperature, Some(Reading::Real(n)) if n.as_f64() == Some(23.5)));
    assert!(matches!(stats.humidity, Some(Reading::Unsigned(40))));
    assert_eq!(stats.ldr, Some(512));
    assert!(matches!(&stats.lux, Some(Reading::Real(n)) if n.as_f64() == Some(1.25)));
    assert_eq!(stats.battery, Some(87));
    assert!(stats.matrix);
    assert_eq!(stats.current_app, Some("Time".to_string()));
    assert_eq!(
        stats.indicators,
        Some(IndicatorStates { indicator1: true, indicator2: false, indicator3: false })
    );
    assert_eq!(
        stats.to_json().to_text().unwrap(),
        "{\"battery\":87,\"currentApp\":\"Time\",\"heap\":123456,\"humidity\":40,\"indicators\":{\"indicator1\":true,\"indicator2\":false,\"indicator3\":false},\"ldr\":512,\"lux\":1.25,\"matrix\":true,\"temperature\":23.5,\"uptime\":86400,\"wifiSignal\":-61}"
    );

    let least = "{\"uptime\":0,\"wifiSignal\":0,\"heap\":0,\"matrix\":false,\"temperature\":null}";
    let stats = Response { status: 200, body: Some(least.to_string()) }.stats().unwrap();
    assert_eq!(stats.wifi_signal, 0);
    assert!(stats.temperature.is_none() && stats.humidity.is_none() && stats.lux.is_none());
    assert!(stats.ldr.is_none() && stats.battery.is_none() && stats.current_app.is_none());
    assert!(stats.indicators.is_none() && !stats.matrix);
    let back = Stats::from_json(&stats.to_json()).unwrap();
    assert_eq!(format!("{:?}", back), format!("{:?}", stats));
    assert!(matches!(
        Stats::from_json(&Json::parse("{\"uptime\":1,\"wifiSignal\":-128,\"heap\":4294967295,\"matrix\":true,\"temperature\":-3}").unwrap()),
        Ok(Stats { wifi_signal: -128, heap: u32::MAX, temperature: Some(Reading::Negative(-3)), .. })
    ));
}

#[test]
fn statistics_need_what_every_device_reports() {
    let cases = [
        ("{\"wifiSignal\":-61,\"heap\":1,\"matrix\":true}", "uptime", true),
        ("{\"uptime\":1,\"heap\":1,\"matrix\":true}", "wifiSignal", true),
        ("{\"uptime\":1,\"wifiSignal\":-61,\"matrix\":true}", "heap", true),
        ("{\"uptime\":1,\"wifiSignal\":-61,\"heap\":1}", "matrix", true),
        ("{\"uptime\":-1,\"wifiSignal\":-61,\"heap\":1,\"matrix\":true}", "uptime", false),
        ("{\"uptime\":null,\"wifiSignal\":-61,\"heap\":1,\"matrix\":true}", "uptime", false),
        ("{\"uptime\":1,\"wifiSignal\":128,\"heap\":1,\"matrix\":true}", "wifiSignal", false),
        ("{\"uptime\":1,\"wifiSignal\":-129,\"heap\":1,\"matrix\":true}", "wifiSignal", false),
        ("{\"uptime\":1,\"wifiSignal\":-6.5,\"heap\":1,\"matrix\":true}", "wifiSignal", false),
        ("{\"uptime\":1,\"wifiSignal\":1,\"heap\":4294967296,\"matrix\":true}", "heap", false),
        ("{\"uptime\":1,\"wifiSignal\":1,\"heap\":1,\"matrix\":1}", "matrix", false),
        ("{\"uptime\":1,\"wifiSignal\":1,\"heap\":1,\"matrix\":true,\"temperature\":\"hot\"}", "temperature", false),
        ("{\"uptime\":1,\"wifiSignal\":1,\"heap\":1,\"matrix\":true,\"ldr\":65536}", "ldr", false),
        ("{\"uptime\":1,\"wifiSignal\":1,\"heap\":1,\"matrix\":true,\"battery\":256}", "battery", false),
        ("{\"uptime\":1,\"wifiSignal\":1,\"heap\":1,\"matrix\":true,\"indicators\":{\"indicator1\":true}}", "indicator2", true),
    ];
    for (text, field, missing) in cases {
        match Stats::from_json(&Json::parse(text).unwrap()) {
            Err(DecodeError::Missing(key)) => {
                assert!(missing, "{}", text);
                assert_eq!(key, field);
            }
            Err(DecodeError::Invalid(key)) => {
                assert!(!missing, "{}", text);
                assert_eq!(key, field);
            }
            other => panic!("unexpected for {}: {:?}", text, other),
        }
    }
    assert!(matches!(Stats::from_json(&Json::Null), Err(DecodeError::NotAnObject)));
    assert!(matches!(
        Response { status: 200, body: None }.stats(),
        Err(AwtrixError::Http(_))
    ));
    assert!(matches!(
        Response { status: 200, body: Some("[".to_string()) }.stats(),
        Err(AwtrixError::Serialization(SerializationError::Syntax(_)))
    ));
}
