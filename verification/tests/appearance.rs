use usage_monitor::appearance::{color_to_hex, shade_color, Color};
use usage_monitor::scheme::{color_palette_for_mode, ColorSchemeMode, SettingsColorSchemeMode};

#[test]
fn hex_parses_with_hash() {
    assert_eq!(Color::from_hex("#1F2933"), Color::new(0x1F, 0x29, 0x33));
}

#[test]
fn hex_parses_lower_case_and_many_hashes() {
    assert_eq!(Color::from_hex("##abcdef"), Color::new(0xAB, 0xCD, 0xEF));
    assert_eq!(Color::from_hex("0a84ff"), Color::new(0x0A, 0x84, 0xFF));
}

#[test]
fn hex_reads_missing_or_bad_pairs_as_zero() {
    assert_eq!(Color::from_hex(""), Color::new(0, 0, 0));
    assert_eq!(Color::from_hex("#12"), Color::new(0x12, 0, 0));
    assert_eq!(Color::from_hex("#zz3344"), Color::new(0, 0x33, 0x44));
}

#[test]
fn hex_written_upper_case() {
    assert_eq!(color_to_hex(Color::new(0xD9, 0x77, 0x57)), "#D97757");
    assert_eq!(color_to_hex(Color::new(0, 0x0A, 0xFF)), "#000AFF");
}

#[test]
fn hex_round_trip() {
    for c in [
        Color::new(0, 0, 0),
        Color::new(255, 255, 255),
        Color::new(0x1E, 0x24, 0x2B),
        Color::new(0x5A, 0xC7, 0x9B),
    ] {
        assert_eq!(Color::from_hex(&color_to_hex(c)), c);
    }
}

#[test]
fn colorref_is_bgr() {
    assert_eq!(Color::new(0x11, 0x22, 0x33).to_colorref(), 0x0033_2211);
}

#[test]
fn shading_clamps() {
    assert_eq!(
        shade_color(Color::new(0xD9, 0x77, 0x57), -88),
        Color::new(0x81, 0x1F, 0x00)
    );
    assert_eq!(
        shade_color(Color::new(0xF0, 0x10, 0x00), 20),
        Color::new(0xFF, 0x24, 0x14)
    );
}

#[test]
fn palettes_by_mode() {
    let dark = (
        Color::new(0x16, 0x16, 0x16),
        Color::new(0xEA, 0xEA, 0xEA),
        Color::new(0xD9, 0x77, 0x57),
    );
    let light = (
        Color::new(0xF4, 0xF6, 0xF8),
        Color::new(0x1F, 0x29, 0x33),
        Color::new(0x0A, 0x84, 0xFF),
    );
    assert_eq!(color_palette_for_mode(ColorSchemeMode::Auto, true), dark);
    assert_eq!(color_palette_for_mode(ColorSchemeMode::Auto, false), light);
    assert_eq!(color_palette_for_mode(ColorSchemeMode::Light, true), light);
    assert_eq!(color_palette_for_mode(ColorSchemeMode::Dark, false), dark);
    assert_eq!(color_palette_for_mode(ColorSchemeMode::Custom, false), light);
}

#[test]
fn scheme_settings_names() {
    assert_eq!(ColorSchemeMode::Custom.to_settings(), None);
    for mode in [ColorSchemeMode::Auto, ColorSchemeMode::Light, ColorSchemeMode::Dark] {
        let named: SettingsColorSchemeMode = mode.to_settings().unwrap();
        assert_eq!(ColorSchemeMode::from(named), mode);
    }
}
