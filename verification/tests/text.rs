use nmrs_tui::logger::{LogLevel, level_from_lowercase, level_from_setting};
use nmrs_tui::network::DeviceEntry;
use nmrs_tui::text::{decimal_text, utf8_width};
use nmrs_tui::ui::table::{DeviceColumnKind, device_row};
use nmrs_tui::ui::style_config::{
    ColorNameError, ColorValue, InvalidStyle, StyleConfig, TextStyle, style_from_config,
    style_from_parsed,
};

fn frequency_cell(mhz: u32) -> String {
    let d = DeviceEntry {
        interface: "wlan0".to_string(),
        hw_address: "AA:BB".to_string(),
        state: "Activated".to_string(),
        powered: true,
        active_frequency_mhz: Some(mhz),
    };
    device_row(&d, &vec![DeviceColumnKind::Frequency], &"-".to_string())[0].clone()
}

#[test]
fn decimal_numbers() {
    assert_eq!(frequency_cell(0), "0 MHz");
    assert_eq!(frequency_cell(7), "7 MHz");
    assert_eq!(frequency_cell(42), "42 MHz");
    assert_eq!(frequency_cell(2412), "2412 MHz");
    assert_eq!(frequency_cell(u32::MAX), "4294967295 MHz");
}

#[test]
fn utf8_widths() {
    assert_eq!(utf8_width('a'), 1);
    assert_eq!(utf8_width('é'), 2);
    assert_eq!(utf8_width('€'), 3);
    assert_eq!(utf8_width('🙂'), 4);
}

#[test]
fn log_levels_ignore_case() {
    assert_eq!(level_from_setting("TRACE"), Some(LogLevel::Trace));
    assert_eq!(level_from_setting("Debug"), Some(LogLevel::Debug));
    assert_eq!(level_from_setting("info"), Some(LogLevel::Info));
    assert_eq!(level_from_setting("wArN"), Some(LogLevel::Warn));
    assert_eq!(level_from_setting("ERROR"), Some(LogLevel::Error));
    assert_eq!(level_from_setting(""), None);
    assert_eq!(level_from_setting("verbose"), None);
    assert_eq!(level_from_lowercase(&"ERROR".to_string()), None);
    assert_eq!(level_from_lowercase(&"error".to_string()), Some(LogLevel::Error));
}

#[test]
fn styles_resolve_color_names() {
    let ok = StyleConfig { fg: Some("Light Red".to_string()), bg: Some("#00ff7f".to_string()), bold: true, italic: true };
    let s = ok.format().ok().unwrap();
    assert_eq!(s, TextStyle { fg: Some(ColorValue::LightRed), bg: Some(ColorValue::Rgb(0, 255, 127)), bold: true, italic: true });
    let indexed = StyleConfig { fg: Some("42".to_string()), bg: None, bold: false, italic: false };
    let s = style_from_config(indexed).ok().unwrap();
    assert_eq!(s, TextStyle { fg: Some(ColorValue::Indexed(42)), bg: None, bold: false, italic: false });
    let swapped = StyleConfig { fg: Some("blue".to_string()), bg: Some("white".to_string()), bold: false, italic: false };
    let s = style_from_config(swapped).ok().unwrap();
    assert_eq!(s.fg, Some(ColorValue::Blue));
    assert_eq!(s.bg, Some(ColorValue::White));
    let gray = StyleConfig { fg: Some("dark-grey".to_string()), bg: Some("reset".to_string()), bold: false, italic: false };
    assert_eq!(gray.format_or_default(), TextStyle { fg: Some(ColorValue::DarkGray), bg: Some(ColorValue::Reset), bold: false, italic: false });
}

#[test]
fn unreadable_color_is_an_error() {
    let bad = StyleConfig { fg: Some("blue".to_string()), bg: Some("sparkly".to_string()), bold: true, italic: false };
    match bad.format() {
        Err(e) => {
            assert_eq!(e.fg.as_deref(), Some("blue"));
            assert_eq!(e.bg.as_deref(), Some("sparkly"));
        }
        Ok(_) => panic!("expected an error"),
    }
    assert_eq!(bad.format_or_default(), TextStyle::default());
    let nope = StyleConfig { fg: Some("nope".to_string()), bg: None, bold: false, italic: false };
    assert_eq!(style_from_config(nope), Err(ColorNameError));
}

#[test]
fn parsed_colors_make_a_style() {
    let s = style_from_parsed(Some(Some(ColorValue::Red)), None, false, true).ok().unwrap();
    assert_eq!(s, TextStyle { fg: Some(ColorValue::Red), bg: None, bold: false, italic: true });
    assert_eq!(style_from_parsed(Some(Some(ColorValue::Red)), Some(None), true, true), Err(ColorNameError));
    assert_eq!(style_from_parsed(Some(None), Some(Some(ColorValue::Blue)), false, false), Err(ColorNameError));
    let s = style_from_parsed(None, Some(Some(ColorValue::Indexed(3))), true, false).ok().unwrap();
    assert_eq!(s, TextStyle { fg: None, bg: Some(ColorValue::Indexed(3)), bold: true, italic: false });
}

#[test]
fn decimal_text_writes_digits() {
    assert_eq!(decimal_text(0), "0");
    assert_eq!(decimal_text(9), "9");
    assert_eq!(decimal_text(10), "10");
    assert_eq!(decimal_text(305), "305");
    assert_eq!(decimal_text(u32::MAX), "4294967295");
}

#[test]
fn invalid_style_message_names_the_colors() {
    let e = InvalidStyle { fg: Some("sparkly \"red\"".to_string()), bg: None };
    assert_eq!(e.message(), "invalid style in config (fg: Some(\"sparkly \\\"red\\\"\"), bg: None)");
    let bad = StyleConfig { fg: None, bg: Some("nope".to_string()), bold: false, italic: false };
    match bad.format() {
        Err(e) => assert_eq!(e.message(), "invalid style in config (fg: None, bg: Some(\"nope\"))"),
        Ok(_) => panic!("expected an error"),
    }
}
