use awtrix3::models::color::Color;
use awtrix3::utils::discovery::{is_awtrix_device, is_awtrix_hostname};
use awtrix3::utils::{color_by_name, parse_color, parse_color_lowered, ColorParseError};

#[test]
fn test_parse_color_hex() {
    let color = parse_color("#FF0000").unwrap();
    assert_eq!(color, Color::red());

    let color = parse_color("00FF00").unwrap();
    assert_eq!(color, Color::green());
}

#[test]
fn test_parse_color_rgb() {
    let color = parse_color("255,0,0").unwrap();
    assert_eq!(color, Color::red());

    let color = parse_color("0, 255, 0").unwrap();
    assert_eq!(color, Color::green());
}

#[test]
fn test_parse_color_named() {
    let color = parse_color("red").unwrap();
    assert_eq!(color, Color::red());

    let color = parse_color("GREEN").unwrap();
    assert_eq!(color, Color::green());
}

#[test]
fn test_color_parsing_comprehensive() {
    assert!(parse_color("#FF0000").is_ok());
    assert!(parse_color("#00FF00").is_ok());
    assert!(parse_color("#0000FF").is_ok());
    assert!(parse_color("FF0000").is_ok());

    assert!(parse_color("255,0,0").is_ok());
    assert!(parse_color("0,255,0").is_ok());
    assert!(parse_color("0, 0, 255").is_ok());

    assert!(parse_color("red").is_ok());
    assert!(parse_color("RED").is_ok());
    assert!(parse_color("Green").is_ok());
    assert!(parse_color("blue").is_ok());
    assert!(parse_color("white").is_ok());
    assert!(parse_color("black").is_ok());

    assert!(parse_color("invalid").is_err());
    assert!(parse_color("").is_err());
    assert!(parse_color("#GG0000").is_err());
    assert!(parse_color("256,0,0").is_err());
    assert!(parse_color("255,0").is_err());
}

#[test]
fn test_color_conversion_roundtrip() {
    let test_colors = [
        ("#FF0000", Color::red()),
        ("#00FF00", Color::green()),
        ("#0000FF", Color::blue()),
        ("#FFFFFF", Color::white()),
        ("#000000", Color::black()),
    ];

    for (hex, expected) in &test_colors {
        let parsed = parse_color(hex).expect("Should parse valid hex color");
        assert_eq!(parsed, *expected);

        let back_to_hex = parsed.to_hex();
        assert_eq!(back_to_hex, *hex);
    }
}

#[test]
fn test_rgb_parsing_edge_cases() {
    assert!(parse_color("0,0,0").is_ok());
    assert!(parse_color("255,255,255").is_ok());
    assert!(parse_color(" 128 , 128 , 128 ").is_ok());

    assert!(parse_color("256,0,0").is_err());
    assert!(parse_color("0,256,0").is_err());
    assert!(parse_color("0,0,256").is_err());
    assert!(parse_color("-1,0,0").is_err());
    assert!(parse_color("0,0").is_err());
    assert!(parse_color("0,0,0,0").is_err());
}

#[test]
fn test_named_color_coverage() {
    let named_colors = [
        "red", "green", "blue", "white", "black", "yellow", "cyan", "magenta", "orange", "purple",
    ];

    for color_name in &named_colors {
        let result = parse_color(color_name);
        assert!(
            result.is_ok(),
            "Named color '{}' should be supported",
            color_name
        );

        let uppercase_result = parse_color(&color_name.to_uppercase());
        assert!(
            uppercase_result.is_ok(),
            "Named color '{}' should be case insensitive",
            color_name
        );

        assert_eq!(result.unwrap(), uppercase_result.unwrap());
    }
}

#[test]
fn test_hex_color_validation() {
    let valid_hex = [
        "#000000", "#FFFFFF", "#FF0000", "#00FF00", "#0000FF", "000000", "FFFFFF", "ff0000",
        "00ff00", "0000ff",
    ];

    for hex in &valid_hex {
        assert!(
            parse_color(hex).is_ok(),
            "Hex color '{}' should be valid",
            hex
        );
    }

    let invalid_hex = [
        "#", "#12345", "#1234567", "#GGGGGG", "GGGGGG", "#12", "#1234", "invalid", "#xyz123",
    ];

    for hex in &invalid_hex {
        assert!(
            parse_color(hex).is_err(),
            "Hex color '{}' should be invalid",
            hex
        );
    }
}

#[test]
fn the_four_spellings_of_red_and_green_agree() {
    assert_eq!(parse_color("255,0,0").unwrap(), Color::red());
    assert_eq!(parse_color("red").unwrap(), Color::red());
    assert_eq!(parse_color("RED").unwrap(), Color::red());
    assert_eq!(parse_color("#ff0000").unwrap(), Color::red());
    assert_eq!(parse_color("0, 255, 0").unwrap(), Color::green());
    assert_eq!(parse_color("Green").unwrap(), Color::green());
}

#[test]
fn named_colors_give_their_channels_in_any_case() {
    assert_eq!(parse_color("Yellow").unwrap(), Color::new(255, 255, 0));
    assert_eq!(parse_color("cyan").unwrap(), Color::new(0, 255, 255));
    assert_eq!(parse_color("MAGENTA").unwrap(), Color::new(255, 0, 255));
    assert_eq!(parse_color("oRaNgE").unwrap(), Color::new(255, 165, 0));
    assert_eq!(parse_color("purple").unwrap(), Color::new(128, 0, 128));
    assert_eq!(parse_color("WHITE").unwrap(), Color::new(255, 255, 255));
    assert_eq!(parse_color("Black").unwrap(), Color::new(0, 0, 0));
    assert_eq!(parse_color("BLUE").unwrap(), Color::new(0, 0, 255));
}

#[test]
fn a_name_is_looked_up_in_its_lower_case_form() {
    // Only the lower-case form is looked up: handed the text unchanged,
    // the lookup would miss.
    assert_eq!(color_by_name("RED"), None);
    assert_eq!(color_by_name("red"), Some(Color::red()));
    assert_eq!(color_by_name("reds"), None);
    assert_eq!(color_by_name(""), None);
    assert_eq!(parse_color_lowered("RED", "RED").ok(), None);
    assert_eq!(parse_color_lowered("RED", "red").ok(), Some(Color::red()));
    assert_eq!(parse_color("RED").ok(), Some(Color::red()));
    // The Kelvin sign is, in lower case, the letter k.
    assert_eq!(parse_color("blac\u{212a}").ok(), Some(Color::black()));
}

#[test]
fn channels_take_a_sign_leading_zeros_and_white_space() {
    assert_eq!(parse_color("+1,+2,+3").unwrap(), Color::new(1, 2, 3));
    assert_eq!(parse_color("001,002,0255").unwrap(), Color::new(1, 2, 255));
    assert_eq!(parse_color("\t1 ,\n2,\u{a0}3\u{3000}").unwrap(), Color::new(1, 2, 3));
    assert_eq!(parse_color("1,2,34").unwrap(), Color::new(1, 2, 34));
    assert_eq!(parse_color("10,2,3").unwrap(), Color::new(10, 2, 3));
}

#[test]
fn each_failure_of_parse_color_has_its_variant() {
    assert!(matches!(parse_color("#12"), Err(ColorParseError::InvalidHex(_))));
    assert!(matches!(parse_color("#1,2,3"), Err(ColorParseError::InvalidHex(_))));
    assert!(matches!(parse_color("1,2"), Err(ColorParseError::WrongArity)));
    assert!(matches!(parse_color("1,2,3,4"), Err(ColorParseError::WrongArity)));
    assert!(matches!(parse_color(","), Err(ColorParseError::WrongArity)));
    assert!(matches!(parse_color("x,2,3"), Err(ColorParseError::InvalidRed)));
    assert!(matches!(parse_color("256,2,3"), Err(ColorParseError::InvalidRed)));
    assert!(matches!(parse_color(",2,3"), Err(ColorParseError::InvalidRed)));
    assert!(matches!(parse_color("1,-2,3"), Err(ColorParseError::InvalidGreen)));
    assert!(matches!(parse_color("1,2 2,3"), Err(ColorParseError::InvalidGreen)));
    assert!(matches!(parse_color("1,2,"), Err(ColorParseError::InvalidBlue)));
    assert!(matches!(parse_color("1,2,+"), Err(ColorParseError::InvalidBlue)));
    assert!(matches!(parse_color("1,2,99999999999999999999"), Err(ColorParseError::InvalidBlue)));
    assert!(matches!(parse_color("invalid"), Err(ColorParseError::UnknownName(_))));
    assert!(matches!(parse_color(""), Err(ColorParseError::UnknownName(_))));
    assert!(matches!(parse_color("GGGGGG"), Err(ColorParseError::UnknownName(_))));
}

#[test]
fn failures_of_parse_color_say_what_went_wrong() {
    assert_eq!(
        parse_color("#12").unwrap_err().message(),
        "Invalid hex color: Invalid color format: Hex color must be 6 characters, got: 12"
    );
    assert_eq!(
        parse_color("#GG0000").unwrap_err().message(),
        "Invalid hex color: Invalid color format: Invalid hex color: GG0000"
    );
    assert_eq!(parse_color("1,2").unwrap_err().message(), "RGB format must be r,g,b");
    assert_eq!(parse_color("a,2,3").unwrap_err().message(), "Invalid red value");
    assert_eq!(parse_color("1,b,3").unwrap_err().message(), "Invalid green value");
    assert_eq!(parse_color("1,2,c").unwrap_err().message(), "Invalid blue value");
    assert_eq!(parse_color("Mauve").unwrap_err().message(), "Unknown color: Mauve");
}

#[test]
fn devices_are_told_by_their_host_names() {
    assert!(is_awtrix_device("awtrix_a1b2c3.local."));
    assert!(is_awtrix_device("AWTRIX-Kitchen.local."));
    assert!(is_awtrix_device("my-Ulanzi-clock"));
    assert!(!is_awtrix_device("printer.local."));
    assert!(!is_awtrix_device("awtri"));
    assert!(!is_awtrix_device(""));
    assert!(is_awtrix_hostname("xxulanzi"));
    assert!(!is_awtrix_hostname("AWTRIX"));
}
