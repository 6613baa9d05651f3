use awtrix3::commands::settings::{
    describe_setting, get_setting, setting_key, settings_report, update_setting,
    update_setting_lowered, SettingError, SettingKey,
};
use awtrix3::json::Json;
use awtrix3::models::color::Color;
use awtrix3::models::settings::{DateAppSettings, Settings, TimeAppSettings};
use awtrix3::utils::ColorParseError;
use awtrix3::wire::DecodeError;

#[test]
fn a_setting_that_was_written_reads_back() {
    let mut s = Settings::new();
    update_setting(&mut s, "time_app.format", "2").unwrap();
    assert_eq!(get_setting(&s, "time_app.format").unwrap(), Some("2".to_string()));
    update_setting(&mut s, "brightness", "+007").unwrap();
    assert_eq!(get_setting(&s, "brightness").unwrap(), Some("7".to_string()));
    update_setting(&mut s, "auto_brightness", "true").unwrap();
    assert_eq!(get_setting(&s, "auto_brightness").unwrap(), Some("true".to_string()));
    update_setting(&mut s, "auto_transition", "false").unwrap();
    assert_eq!(get_setting(&s, "auto_transition").unwrap(), Some("false".to_string()));
    update_setting(&mut s, "app_time", "4294967295").unwrap();
    assert_eq!(get_setting(&s, "app_time").unwrap(), Some("4294967295".to_string()));
    update_setting(&mut s, "transition", " Slide ").unwrap();
    assert_eq!(get_setting(&s, "transition").unwrap(), Some(" Slide ".to_string()));
    update_setting(&mut s, "transition_time", "500").unwrap();
    assert_eq!(get_setting(&s, "transition_time").unwrap(), Some("500".to_string()));
    update_setting(&mut s, "text_color", "orange").unwrap();
    assert_eq!(get_setting(&s, "text_color").unwrap(), Some("#FFA500".to_string()));
    update_setting(&mut s, "text_color", "1, 2, 3").unwrap();
    assert_eq!(get_setting(&s, "text_color").unwrap(), Some("#010203".to_string()));
    update_setting(&mut s, "temp_unit", "F").unwrap();
    assert_eq!(get_setting(&s, "temp_unit").unwrap(), Some("F".to_string()));
    update_setting(&mut s, "scroll_speed", "0").unwrap();
    assert_eq!(get_setting(&s, "scroll_speed").unwrap(), Some("0".to_string()));
    update_setting(&mut s, "time_app.show_weekday", "true").unwrap();
    assert_eq!(get_setting(&s, "time_app.show_weekday").unwrap(), Some("true".to_string()));
    assert_eq!(s.brightness, Some(7));
    assert_eq!(s.app_time, Some(u32::MAX));
    assert_eq!(s.text_color, Some(Color::new(1, 2, 3)));
    assert_eq!(s.time_app.unwrap().format, Some(2));
}

#[test]
fn a_nested_key_brings_its_group_into_being() {
    let mut s = Settings::new();
    assert!(s.time_app.is_none());
    update_setting(&mut s, "time_app.format", "5").unwrap();
    let group = s.time_app.unwrap();
    assert_eq!(group.format, Some(5));
    assert!(group.show_weekday.is_none());
    assert!(group.cal_header_color.is_none());
    assert!(group.cal_body_color.is_none());
    assert!(group.cal_text_color.is_none());
    assert!(s.brightness.is_none() && s.date_app.is_none() && s.transition.is_none());

    let mut s = Settings::new();
    update_setting(&mut s, "time_app.show_weekday", "false").unwrap();
    let group = s.time_app.unwrap();
    assert_eq!(group.show_weekday, Some(false));
    assert!(group.format.is_none());
}

#[test]
fn a_nested_key_leaves_the_rest_of_its_group_alone() {
    let mut s = Settings::new();
    s.time_app = Some(TimeAppSettings {
        format: Some(1),
        show_weekday: Some(true),
        cal_header_color: Some(Color::red()),
        cal_body_color: None,
        cal_text_color: None,
    });
    update_setting(&mut s, "time_app.format", "0").unwrap();
    let group = s.time_app.unwrap();
    assert_eq!(group.format, Some(0));
    assert_eq!(group.show_weekday, Some(true));
    assert_eq!(group.cal_header_color, Some(Color::red()));
}

#[test]
fn a_time_format_above_five_is_refused() {
    let mut s = Settings::new();
    s.brightness = Some(1);
    assert!(matches!(
        update_setting(&mut s, "time_app.format", "9"),
        Err(SettingError::TimeFormatOutOfRange)
    ));
    assert!(matches!(
        update_setting(&mut s, "time_app.format", "6"),
        Err(SettingError::TimeFormatOutOfRange)
    ));
    assert!(matches!(
        update_setting(&mut s, "time_app.format", "256"),
        Err(SettingError::InvalidTimeFormat)
    ));
    assert!(matches!(
        update_setting(&mut s, "time_app.format", "two"),
        Err(SettingError::InvalidTimeFormat)
    ));
    assert!(s.time_app.is_none());
    assert_eq!(s.brightness, Some(1));
}

#[test]
fn an_unknown_key_can_be_neither_read_nor_written() {
    let mut s = Settings::new();
    match update_setting(&mut s, "bogus", "1") {
        Err(SettingError::UnknownKey(key)) => assert_eq!(key, "bogus"),
        other => panic!("unexpected: {:?}", other),
    }
    match get_setting(&s, "bogus") {
        Err(SettingError::UnknownKey(key)) => assert_eq!(key, "bogus"),
        other => panic!("unexpected: {:?}", other),
    }
    for key in ["", "Brightness", "time_app", "time_app.cal_header_color", "date_app.enabled", "brightness "] {
        assert!(matches!(get_setting(&s, key), Err(SettingError::UnknownKey(_))), "{}", key);
        assert!(matches!(update_setting(&mut s, key, "1"), Err(SettingError::UnknownKey(_))), "{}", key);
    }
    assert_eq!(describe_setting(&s, "bogus"), Err("Unknown setting key: bogus".to_string()));
}

#[test]
fn each_failure_to_write_has_its_variant_and_its_words() {
    let mut s = Settings::new();
    let cases: [(&str, &str, &str); 9] = [
        ("brightness", "256", "Invalid brightness value. Must be 0-255"),
        ("brightness", "", "Invalid brightness value. Must be 0-255"),
        ("auto_brightness", "TRUE", "Invalid boolean value. Use 'true' or 'false'"),
        ("auto_transition", "1", "Invalid boolean value. Use 'true' or 'false'"),
        ("app_time", "4294967296", "Invalid app_time value. Must be a positive number"),
        ("transition_time", "-1", "Invalid transition_time value. Must be a positive number"),
        ("scroll_speed", "1.5", "Invalid scroll_speed value. Must be a positive number"),
        ("time_app.format", " 2", "Invalid time format. Must be 0-5"),
        ("time_app.show_weekday", "yes", "Invalid boolean value. Use 'true' or 'false'"),
    ];
    for (key, value, words) in cases {
        let error = update_setting(&mut s, key, value).unwrap_err();
        assert_eq!(error.message(), words, "{} = {}", key, value);
    }
    assert!(matches!(update_setting(&mut s, "brightness", "x"), Err(SettingError::InvalidBrightness)));
    assert!(matches!(update_setting(&mut s, "auto_brightness", "x"), Err(SettingError::InvalidBoolean)));
    assert!(matches!(update_setting(&mut s, "app_time", "x"), Err(SettingError::InvalidAppTime)));
    assert!(matches!(update_setting(&mut s, "transition_time", "x"), Err(SettingError::InvalidTransitionTime)));
    assert!(matches!(update_setting(&mut s, "scroll_speed", "x"), Err(SettingError::InvalidScrollSpeed)));
    assert!(matches!(
        update_setting(&mut s, "text_color", "mauve"),
        Err(SettingError::InvalidColor(ColorParseError::UnknownName(_)))
    ));
    assert_eq!(
        update_setting(&mut s, "text_color", "mauve").unwrap_err().message(),
        "Unknown color: mauve"
    );
    assert_eq!(
        update_setting(&mut s, "time_app.format", "9").unwrap_err().message(),
        "Time format must be 0-5"
    );
    assert_eq!(
        update_setting(&mut s, "nope", "9").unwrap_err().message(),
        "Unknown setting key: nope. Use 'settings list' to see available settings"
    );
    assert_eq!(format!("{:?}", s), format!("{:?}", Settings::new()));
}

#[test]
fn a_setting_that_is_not_set_reads_as_none() {
    let s = Settings::new();
    for key in [
        "brightness", "auto_brightness", "auto_transition", "app_time", "transition",
        "transition_time", "text_color", "temp_unit", "scroll_speed", "time_app.format",
        "time_app.show_weekday",
    ] {
        assert_eq!(get_setting(&s, key).unwrap(), None, "{}", key);
        assert!(setting_key(key).is_some());
    }
    assert_eq!(
        describe_setting(&s, "brightness"),
        Ok("Setting 'brightness' not set".to_string())
    );
    let mut s = Settings::new();
    s.time_app = Some(TimeAppSettings {
        format: None,
        show_weekday: None,
        cal_header_color: None,
        cal_body_color: None,
        cal_text_color: None,
    });
    assert_eq!(get_setting(&s, "time_app.format").unwrap(), None);
    s.brightness = Some(200);
    assert_eq!(describe_setting(&s, "brightness"), Ok("200".to_string()));
    assert_eq!(setting_key("time_app.format"), Some(SettingKey::TimeAppFormat));
    assert_eq!(setting_key("text_color"), Some(SettingKey::TextColor));
    assert_eq!(setting_key("nothing"), None);
}

#[test]
fn the_report_lists_what_is_set() {
    assert_eq!(
        settings_report(&Settings::new()),
        vec!["Current AWTRIX3 Settings:".to_string(), "".to_string()]
    );
    let s = Settings {
        brightness: Some(150),
        auto_brightness: Some(false),
        auto_transition: None,
        app_time: Some(7),
        transition: Some("Slide".to_string()),
        transition_time: Some(500),
        text_color: Some(Color::red()),
        time_app: Some(TimeAppSettings {
            format: Some(2),
            show_weekday: None,
            cal_header_color: Some(Color::blue()),
            cal_body_color: None,
            cal_text_color: Some(Color::white()),
        }),
        date_app: Some(DateAppSettings { enabled: Some(true), format: Some("%d.%m.".to_string()) }),
        temp_unit: Some("C".to_string()),
        scroll_speed: Some(100),
    };
    let expected = vec![
        "Current AWTRIX3 Settings:",
        "",
        "  brightness: 150 (0-255)",
        "  auto_brightness: false",
        "  app_time: 7 seconds",
        "  transition: Slide",
        "  transition_time: 500 ms",
        "  text_color: #FF0000",
        "  temp_unit: C",
        "  scroll_speed: 100%",
        "",
        "  Time App Settings:",
        "    time_app.format: 2",
        "    time_app.cal_header_color: #0000FF",
        "    time_app.cal_text_color: #FFFFFF",
        "",
        "  Date App Settings:",
        "    date_app.enabled: true",
        "    date_app.format: %d.%m.",
    ];
    assert_eq!(settings_report(&s), expected);
}

#[test]
fn settings_are_sparse_on_the_wire_and_come_back_as_they_were() {
    assert_eq!(Settings::new().to_text().unwrap(), "{}");
    assert_eq!(Settings::default().to_text().unwrap(), "{}");
    let s = Settings {
        brightness: Some(255),
        auto_brightness: None,
        auto_transition: Some(true),
        app_time: None,
        transition: None,
        transition_time: Some(1),
        text_color: Some(Color::new(1, 2, 3)),
        time_app: Some(TimeAppSettings {
            format: Some(5),
            show_weekday: Some(false),
            cal_header_color: None,
            cal_body_color: Some(Color::red()),
            cal_text_color: None,
        }),
        date_app: Some(DateAppSettings { enabled: None, format: Some("x".to_string()) }),
        temp_unit: None,
        scroll_speed: Some(200),
    };
    let text = s.to_text().unwrap();
    assert_eq!(
        text,
        "{\"autoTransition\":true,\"brightness\":255,\"dateApp\":{\"format\":\"x\"},\"scrollSpeed\":200,\"textColor\":[1,2,3],\"timeApp\":{\"calBodyColor\":[255,0,0],\"format\":5,\"showWeekday\":false},\"transitionTime\":1}"
    );
    let back = Settings::from_text(&text).unwrap();
    assert_eq!(format!("{:?}", back), format!("{:?}", s));
}

#[test]
fn settings_read_from_the_wire_are_well_formed() {
    let s = Settings::from_text("{\"textColor\":\"#0000ff\",\"timeApp\":{\"format\":0},\"dateApp\":null}").unwrap();
    assert_eq!(s.text_color, Some(Color::blue()));
    assert_eq!(s.time_app.unwrap().format, Some(0));
    assert!(s.date_app.is_none());
    match Settings::from_json(&Json::parse("{\"timeApp\":{\"format\":6}}").unwrap()) {
        Err(DecodeError::Invalid(key)) => assert_eq!(key, "format"),
        other => panic!("unexpected: {:?}", other),
    }
    match Settings::from_json(&Json::parse("{\"brightness\":256}").unwrap()) {
        Err(DecodeError::Invalid(key)) => assert_eq!(key, "brightness"),
        other => panic!("unexpected: {:?}", other),
    }
    match Settings::from_json(&Json::parse("{\"dateApp\":{\"enabled\":1}}").unwrap()) {
        Err(DecodeError::Invalid(key)) => assert_eq!(key, "enabled"),
        other => panic!("unexpected: {:?}", other),
    }
    assert!(matches!(
        Settings::from_json(&Json::parse("{\"timeApp\":[]}").unwrap()),
        Err(DecodeError::NotAnObject)
    ));
    assert!(matches!(Settings::from_json(&Json::parse("7").unwrap()), Err(DecodeError::NotAnObject)));
}

#[test]
fn a_color_name_is_read_from_its_lower_case_form() {
    let mut s = Settings::new();
    assert!(matches!(
        update_setting_lowered(&mut s, "text_color", "RED", "RED"),
        Err(SettingError::InvalidColor(ColorParseError::UnknownName(_)))
    ));
    assert!(s.text_color.is_none());
    update_setting_lowered(&mut s, "text_color", "RED", "red").unwrap();
    assert_eq!(s.text_color, Some(Color::red()));
    update_setting(&mut s, "text_color", "CYAN").unwrap();
    assert_eq!(s.text_color, Some(Color::cyan()));
    // Nothing but a color's name is read from the lower-case form.
    update_setting_lowered(&mut s, "transition", "Slide", "slide").unwrap();
    assert_eq!(s.transition, Some("Slide".to_string()));
    assert!(matches!(
        update_setting_lowered(&mut s, "auto_brightness", "TRUE", "true"),
        Err(SettingError::InvalidBoolean)
    ));
}
