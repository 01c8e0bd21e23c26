use g910_replay::color::Color;
use g910_replay::keys::{GamingKey, StandardKey};
use g910_replay::session::{parse_color_line, parse_u8, tokenize, Key, LineError};
use g910_replay::text::str_eq;

#[test]
fn parses_a_standard_key_line() {
    let (key, color) = parse_color_line("A 1 2 3").unwrap();
    assert_eq!(key, Key::Standard(StandardKey::A));
    assert_eq!(color, Color::new(1, 2, 3));
}

#[test]
fn parses_a_gaming_key_line() {
    let (key, color) = parse_color_line("G1 0 255 7").unwrap();
    assert_eq!(key, Key::Gaming(GamingKey::G1));
    assert_eq!(color, Color::new(0, 255, 7));
}

#[test]
fn unknown_key_is_reported_before_channels() {
    assert_eq!(parse_color_line("Zz 1 2 3").err().unwrap(), LineError::BadKey);
    // Even when the channel fields are also unparseable, only the key error
    // is reported.
    assert_eq!(parse_color_line("Zz x y z").err().unwrap(), LineError::BadKey);
}

#[test]
fn channel_errors_in_field_order() {
    assert_eq!(parse_color_line("A x 2 3").err().unwrap(), LineError::BadRed);
    assert_eq!(parse_color_line("A x y 3").err().unwrap(), LineError::BadRed);
    assert_eq!(parse_color_line("A 1 y 3").err().unwrap(), LineError::BadGreen);
    assert_eq!(parse_color_line("A 1 2 z").err().unwrap(), LineError::BadBlue);
    assert_eq!(parse_color_line("A 256 2 3").err().unwrap(), LineError::BadRed);
}

#[test]
fn missing_fields_are_that_fields_error() {
    assert_eq!(parse_color_line("A").err().unwrap(), LineError::BadRed);
    assert_eq!(parse_color_line("A 1").err().unwrap(), LineError::BadGreen);
    assert_eq!(parse_color_line("A 1 2").err().unwrap(), LineError::BadBlue);
    assert_eq!(parse_color_line("").err().unwrap(), LineError::BadKey);
}

#[test]
fn extra_fields_are_ignored() {
    let (key, color) = parse_color_line("Space 9 8 7 extra").unwrap();
    assert_eq!(key, Key::Standard(StandardKey::Space));
    assert_eq!(color, Color::new(9, 8, 7));
}

#[test]
fn tokenize_splits_at_single_spaces() {
    assert_eq!(tokenize("a b c"), vec!["a", "b", "c"]);
    assert_eq!(tokenize("a  b"), vec!["a", "", "b"]);
    assert_eq!(tokenize(""), vec![""]);
    assert_eq!(tokenize(" a"), vec!["", "a"]);
}

#[test]
fn parse_u8_accepts_decimal_channels() {
    assert_eq!(parse_u8("0"), Some(0));
    assert_eq!(parse_u8("255"), Some(255));
    assert_eq!(parse_u8("256"), None);
    assert_eq!(parse_u8(""), None);
    assert_eq!(parse_u8("12a"), None);
    assert_eq!(parse_u8("007"), Some(7));
}

#[test]
fn key_names_parse_in_both_banks() {
    assert_eq!(StandardKey::from_name("F12"), Some(StandardKey::F12));
    assert_eq!(StandardKey::from_name("LeftControl"), Some(StandardKey::LeftControl));
    assert_eq!(StandardKey::from_name("G1"), None);
    assert_eq!(GamingKey::from_name("G9"), Some(GamingKey::G9));
    assert_eq!(GamingKey::from_name("A"), None);
    assert_eq!(StandardKey::from_name("None"), Some(StandardKey::NoKey));
}

#[test]
fn key_codes_are_hid_usage_ids() {
    assert_eq!(StandardKey::A.code(), 4);
    assert_eq!(StandardKey::Z.code(), 29);
    assert_eq!(StandardKey::Num0.code(), 39);
    assert_eq!(StandardKey::F1.code(), 58);
    assert_eq!(StandardKey::Application.code(), 101);
    assert_eq!(StandardKey::International1.code(), 135);
    assert_eq!(StandardKey::LeftControl.code(), 224);
    assert_eq!(StandardKey::RightGui.code(), 231);
    assert_eq!(StandardKey::NoKey.code(), 0);
}

#[test]
fn value_lists_cover_both_banks() {
    let standard = StandardKey::values();
    assert_eq!(standard.len(), 112);
    assert_eq!(standard[0], StandardKey::NoKey);
    let gaming = GamingKey::values();
    assert_eq!(gaming.len(), 10);
    assert_eq!(gaming[0], GamingKey::NoKey);
    for k in standard.iter() {
        assert_eq!(StandardKey::from_name(k.name()), Some(*k));
    }
    for g in gaming.iter() {
        assert_eq!(GamingKey::from_name(g.name()), Some(*g));
    }
}

#[test]
fn str_eq_compares_by_characters() {
    assert!(str_eq("abc", "abc"));
    assert!(!str_eq("abc", "abd"));
    assert!(!str_eq("abc", "ab"));
    assert!(str_eq("", ""));
}
