use usage_monitor::localization::{language_from_ui_language, resolve_language, LanguageId};
use usage_monitor::theme::{accent_color, accent_palette_from_query, is_dark_mode};

#[test]
fn default_language_is_brazilian_portuguese() {
    assert_eq!(resolve_language(None, None), LanguageId::PortugueseBrazil);
}

#[test]
fn system_language_used_when_recognised() {
    assert_eq!(resolve_language(None, Some(LanguageId::English)), LanguageId::English);
    assert_eq!(
        resolve_language(None, language_from_ui_language(0x0407)),
        LanguageId::PortugueseBrazil
    );
    assert_eq!(
        resolve_language(Some(LanguageId::PortugueseBrazil), Some(LanguageId::English)),
        LanguageId::PortugueseBrazil
    );
}

#[test]
fn ui_language_ids() {
    assert_eq!(language_from_ui_language(0x0409), Some(LanguageId::English));
    assert_eq!(language_from_ui_language(0x0809), Some(LanguageId::English));
    assert_eq!(language_from_ui_language(0x0416), Some(LanguageId::PortugueseBrazil));
    assert_eq!(language_from_ui_language(0x0407), None);
}

#[test]
fn override_language_wins() {
    assert_eq!(resolve_language(Some(LanguageId::English), None), LanguageId::English);
    assert_eq!(
        resolve_language(Some(LanguageId::PortugueseBrazil), None),
        LanguageId::PortugueseBrazil
    );
}

#[test]
fn native_names() {
    assert_eq!(LanguageId::English.native_name(), "English");
    assert_eq!(LanguageId::PortugueseBrazil.native_name(), "Português (Brasil)");
}

#[test]
fn all_languages_in_menu_order() {
    assert_eq!(
        LanguageId::ALL,
        [LanguageId::English, LanguageId::PortugueseBrazil]
    );
}

#[test]
fn string_tables_differ_by_language() {
    let en = LanguageId::English.strings();
    let pt = LanguageId::PortugueseBrazil.strings();
    assert_eq!(en.refresh, "Refresh");
    assert_eq!(pt.refresh, "Atualizar");
    assert_eq!(pt.system_default, "Padrão do sistema");
    assert_eq!(en.session_window, "5h");
    assert_eq!(pt.weekly_window, "7d");
}

#[test]
fn accent_without_palette_is_default_lilac() {
    assert_eq!(accent_color(true, None), (0xDB, 0x9E, 0xE5));
    assert_eq!(accent_color(false, None), (0xDB, 0x9E, 0xE5));
}

#[test]
fn accent_picks_light_shade_on_dark_theme() {
    let mut palette = [0u8; 32];
    for (i, b) in palette.iter_mut().enumerate() {
        *b = i as u8;
    }
    assert_eq!(accent_color(true, Some(palette)), (4, 5, 6));
    assert_eq!(accent_color(false, Some(palette)), (16, 17, 18));
}

#[test]
fn accent_palette_needs_full_successful_read() {
    let data = [7u8; 32];
    assert_eq!(accent_palette_from_query(true, 32, data), Some(data));
    assert_eq!(accent_palette_from_query(true, 16, data), None);
    assert_eq!(accent_palette_from_query(false, 32, data), None);
}

#[test]
fn dark_mode_unless_light_theme_flag_is_one() {
    assert!(!is_dark_mode(Some(1)));
    assert!(is_dark_mode(Some(0)));
    assert!(is_dark_mode(Some(2)));
    assert!(is_dark_mode(None));
}
