use awtrix3::json::Json;
use awtrix3::models::app::CustomApp;
use awtrix3::models::color::Color;
use awtrix3::models::notification::{EffectSettings, Notification, NotificationBuilder};
use awtrix3::wire::DecodeError;
use awtrix3::AwtrixError;

#[test]
fn test_notification_builder() {
    let notification = Notification::builder()
        .text("Test")
        .icon(1234)
        .duration(10)
        .build();

    assert_eq!(notification.text, Some("Test".to_string()));
    assert_eq!(notification.icon, Some(1234));
    assert_eq!(notification.duration, Some(10));
}

#[test]
fn test_progress_clamping() {
    let notification = Notification::builder().progress(150).build();

    assert_eq!(notification.progress, Some(100));
}

#[test]
fn test_notification_builder_comprehensive() {
    let notification = Notification::builder()
        .text("Test Notification")
        .icon(1234)
        .color(Color::red())
        .duration(10)
        .progress(50)
        .hold(true)
        .wakeup(true)
        .build();

    assert_eq!(notification.text, Some("Test Notification".to_string()));
    assert_eq!(notification.icon, Some(1234));
    assert_eq!(notification.duration, Some(10));
    assert_eq!(notification.progress, Some(50));
    assert_eq!(notification.hold, Some(true));
    assert_eq!(notification.wakeup, Some(true));
}

#[test]
fn progress_is_clamped_at_its_edges() {
    assert_eq!(Notification::builder().progress(0).build().progress, Some(0));
    assert_eq!(Notification::builder().progress(100).build().progress, Some(100));
    assert_eq!(Notification::builder().progress(101).build().progress, Some(100));
    assert_eq!(Notification::builder().progress(255).build().progress, Some(100));
    // Clamping what was clamped changes nothing.
    let once = Notification::builder().progress(150).build().progress.unwrap();
    let twice = Notification::builder().progress(once).build().progress.unwrap();
    assert_eq!(once, twice);
}

#[test]
fn a_new_builder_leaves_every_field_absent() {
    let n = NotificationBuilder::new().build();
    assert!(n.text.is_none() && n.icon.is_none() && n.color.is_none());
    assert!(n.duration.is_none() && n.sound.is_none() && n.rtttl.is_none());
    assert!(n.loop_sound.is_none() && n.progress.is_none());
    assert!(n.progress_c.is_none() && n.progress_bc.is_none());
    assert!(n.rainbow.is_none() && n.stack.is_none() && n.hold.is_none());
    assert!(n.wakeup.is_none() && n.no_scroll.is_none() && n.scroll_speed.is_none());
    assert!(n.effect.is_none() && n.effect_settings.is_none());
    assert_eq!(n.to_text().unwrap(), "{}");
}

#[test]
fn each_setter_fills_its_field_alone() {
    let n = Notification::builder().sound("beep").color(Color::blue()).build();
    assert_eq!(n.sound, Some("beep".to_string()));
    assert_eq!(n.color, Some(Color::blue()));
    assert!(n.text.is_none() && n.icon.is_none() && n.hold.is_none());
    let n = Notification::builder().hold(false).wakeup(false).build();
    assert_eq!(n.hold, Some(false));
    assert_eq!(n.wakeup, Some(false));
    assert!(n.text.is_none());
}

#[test]
fn absent_fields_are_not_sent() {
    let n = Notification::builder().text("hi").build();
    assert_eq!(n.to_text().unwrap(), "{\"text\":\"hi\"}");
    let n = Notification::builder().text("hi").icon(7).color(Color::red()).progress(150).build();
    let json = Json::parse(&n.to_text().unwrap()).unwrap();
    match json {
        Json::Object(members) => {
            let mut keys: Vec<&str> = members.iter().map(|(k, _)| k.as_str()).collect();
            keys.sort();
            assert_eq!(keys, vec!["color", "icon", "progress", "text"]);
        }
        other => panic!("unexpected: {:?}", other),
    }
}

#[test]
fn fields_go_under_their_wire_keys() {
    let mut n = Notification::builder().build();
    n.loop_sound = Some(true);
    n.progress_c = Some(Color::red());
    n.progress_bc = Some(Color::black());
    n.no_scroll = Some(false);
    n.scroll_speed = Some(80);
    n.effect_settings = Some(EffectSettings { speed: Some(3), palette: None, blend: None });
    assert_eq!(
        n.to_text().unwrap(),
        "{\"effectSettings\":{\"blend\":null,\"palette\":null,\"speed\":3},\"loopSound\":true,\"noScroll\":false,\"progressBc\":[0,0,0],\"progressC\":[255,0,0],\"scrollSpeed\":80}"
    );
}

#[test]
fn a_notification_with_only_text_comes_back_as_it_was() {
    let sent = Notification::builder().text("only text").build();
    let text = sent.to_text().unwrap();
    let back = Notification::from_text(&text).unwrap();
    assert_eq!(back.text, sent.text);
    assert!(back.icon.is_none() && back.color.is_none() && back.duration.is_none());
    assert!(back.sound.is_none() && back.rtttl.is_none() && back.loop_sound.is_none());
    assert!(back.progress.is_none() && back.progress_c.is_none() && back.progress_bc.is_none());
    assert!(back.rainbow.is_none() && back.stack.is_none() && back.hold.is_none());
    assert!(back.wakeup.is_none() && back.no_scroll.is_none() && back.scroll_speed.is_none());
    assert!(back.effect.is_none() && back.effect_settings.is_none());
    assert_eq!(back.to_text().unwrap(), text);
}

#[test]
fn a_full_notification_comes_back_as_it_was() {
    let sent = Notification {
        text: Some("t".to_string()),
        icon: Some(u32::MAX),
        color: Some(Color::new(1, 2, 3)),
        duration: Some(0),
        sound: Some("s".to_string()),
        rtttl: Some("r:d=4".to_string()),
        loop_sound: Some(false),
        progress: Some(42),
        progress_c: Some(Color::white()),
        progress_bc: Some(Color::black()),
        rainbow: Some(true),
        stack: Some(false),
        hold: Some(true),
        wakeup: Some(false),
        no_scroll: Some(true),
        scroll_speed: Some(150),
        effect: Some("Matrix".to_string()),
        effect_settings: Some(EffectSettings {
            speed: None,
            palette: Some("Rainbow".to_string()),
            blend: Some(true),
        }),
    };
    let text = sent.to_text().unwrap();
    let back = Notification::from_text(&text).unwrap();
    assert_eq!(format!("{:?}", back), format!("{:?}", sent));
}

#[test]
fn a_notification_reads_colors_in_both_forms_and_skips_what_it_does_not_know() {
    let n = Notification::from_text(
        "{\"text\":\"x\",\"color\":\"#00ff00\",\"progressC\":[1,2,3],\"icon\":null,\"extra\":[1.5,{}]}",
    )
    .unwrap();
    assert_eq!(n.text, Some("x".to_string()));
    assert_eq!(n.color, Some(Color::green()));
    assert_eq!(n.progress_c, Some(Color::new(1, 2, 3)));
    assert_eq!(n.icon, None);
}

#[test]
fn a_notification_refuses_members_that_do_not_fit() {
    let cases = [
        ("{\"icon\":\"5\"}", "icon"),
        ("{\"icon\":-1}", "icon"),
        ("{\"icon\":4294967296}", "icon"),
        ("{\"icon\":1.5}", "icon"),
        ("{\"progress\":256}", "progress"),
        ("{\"text\":5}", "text"),
        ("{\"hold\":\"yes\"}", "hold"),
        ("{\"color\":\"#GG0000\"}", "color"),
        ("{\"color\":[1,2]}", "color"),
        ("{\"color\":[1,2,300]}", "color"),
        ("{\"effectSettings\":{\"speed\":\"fast\"}}", "speed"),
        ("{\"text\":5,\"icon\":\"x\"}", "text"),
    ];
    for (text, field) in cases {
        match Notification::from_json(&Json::parse(text).unwrap()) {
            Err(DecodeError::Invalid(key)) => assert_eq!(key, field, "{}", text),
            other => panic!("unexpected for {}: {:?}", text, other),
        }
    }
    assert!(matches!(
        Notification::from_json(&Json::parse("[1,2]").unwrap()),
        Err(DecodeError::NotAnObject)
    ));
    assert!(matches!(
        Notification::from_json(&Json::parse("{\"effectSettings\":5}").unwrap()),
        Err(DecodeError::NotAnObject)
    ));
    assert!(matches!(
        Notification::from_text("{\"icon\":"),
        Err(AwtrixError::Serialization(awtrix3::error::SerializationError::Syntax(_)))
    ));
    assert!(matches!(
        Notification::from_text("{\"icon\":true}"),
        Err(AwtrixError::Serialization(awtrix3::error::SerializationError::Schema(
            DecodeError::Invalid(_)
        )))
    ));
}

fn object(members: Vec<(&str, Json)>) -> Json {
    Json::Object(members.into_iter().map(|(k, v)| (k.to_string(), v)).collect())
}

#[test]
fn a_field_with_two_members_under_its_key_is_refused() {
    let cases = [
        (object(vec![("icon", Json::Unsigned(1)), ("icon", Json::Unsigned(2))]), "icon"),
        (object(vec![("icon", Json::Unsigned(1)), ("icon", Json::Unsigned(1))]), "icon"),
        (object(vec![("icon", Json::Null), ("icon", Json::Unsigned(2))]), "icon"),
        (object(vec![("icon", Json::Unsigned(2)), ("icon", Json::Null)]), "icon"),
        (object(vec![("icon", Json::Text("x".to_string())), ("icon", Json::Unsigned(2))]), "icon"),
        (
            object(vec![
                ("text", Json::Text("a".to_string())),
                ("hold", Json::Bool(true)),
                ("text", Json::Text("b".to_string())),
                ("hold", Json::Bool(false)),
            ]),
            "text",
        ),
        (
            object(vec![("color", Json::Text("#FF0000".to_string())), ("color", Json::Text("#FF0000".to_string()))]),
            "color",
        ),
        (
            object(vec![("effectSettings", object(vec![])), ("effectSettings", object(vec![]))]),
            "effectSettings",
        ),
        (
            object(vec![(
                "effectSettings",
                object(vec![("speed", Json::Unsigned(1)), ("blend", Json::Bool(true)), ("speed", Json::Unsigned(1))]),
            )]),
            "speed",
        ),
    ];
    for (json, field) in cases {
        match Notification::from_json(&json) {
            Err(DecodeError::Duplicate(key)) => assert_eq!(key, field),
            other => panic!("unexpected: {:?}", other),
        }
    }
    assert_eq!(DecodeError::Duplicate("icon".to_string()).message(), "duplicate field `icon`");
}

#[test]
fn members_under_keys_that_are_no_fields_may_repeat() {
    let json = object(vec![
        ("extra", Json::Unsigned(1)),
        ("icon", Json::Unsigned(7)),
        ("extra", Json::Unsigned(2)),
        ("Icon", Json::Unsigned(8)),
        ("Icon", Json::Unsigned(9)),
    ]);
    assert_eq!(Notification::from_json(&json).unwrap().icon, Some(7));
}

#[test]
fn a_key_repeated_in_a_text_reaches_the_readers_once() {
    // Reading a text goes through `serde_json::Value`, which keeps the
    // last member of a repeated key and reports nothing: the document
    // holds the key once, and nothing is left to refuse.
    match Json::parse("{\"icon\":1,\"icon\":2}").unwrap() {
        Json::Object(members) => {
            assert_eq!(members.len(), 1);
            assert!(matches!(&members[0], (key, Json::Unsigned(2)) if key == "icon"));
        }
        other => panic!("unexpected: {:?}", other),
    }
    assert_eq!(Notification::from_text("{\"icon\":1,\"icon\":2}").unwrap().icon, Some(2));
    // Writing a document with a repeated key goes the same way.
    let json = object(vec![("icon", Json::Unsigned(1)), ("icon", Json::Unsigned(2))]);
    assert_eq!(json.to_text().unwrap(), "{\"icon\":2}");
}

#[test]
fn a_custom_app_is_sparse_and_comes_back_as_it_was() {
    assert_eq!(CustomApp::new().to_text().unwrap(), "{}");
    assert_eq!(CustomApp::default().to_text().unwrap(), "{}");
    let mut app = CustomApp::new();
    app.text = Some("AAPL".to_string());
    app.lifetime = Some(60);
    app.save = Some(true);
    app.pos = Some(2);
    app.progress_bc = Some(Color::new(9, 8, 7));
    let text = app.to_text().unwrap();
    assert_eq!(
        text,
        "{\"lifetime\":60,\"pos\":2,\"progressBc\":[9,8,7],\"save\":true,\"text\":\"AAPL\"}"
    );
    let back = CustomApp::from_text(&text).unwrap();
    assert_eq!(format!("{:?}", back), format!("{:?}", app));
    assert!(matches!(
        CustomApp::from_json(&Json::parse("{\"pos\":-1}").unwrap()),
        Err(DecodeError::Invalid(_))
    ));
    assert!(matches!(
        CustomApp::from_json(&Json::Null),
        Err(DecodeError::NotAnObject)
    ));
}

#[test]
fn decode_errors_say_what_went_wrong() {
    assert_eq!(DecodeError::NotAnObject.message(), "expected a JSON object");
    assert_eq!(DecodeError::Missing("apps".to_string()).message(), "missing field `apps`");
    assert_eq!(
        DecodeError::Invalid("icon".to_string()).message(),
        "invalid value for field `icon`"
    );
}
