use usage_monitor::appearance::Color;
use usage_monitor::layout::Rect;
use usage_monitor::localization::LanguageId;
use usage_monitor::menu::{
    apply_menu_command, context_menu_items, fallback_preferences, menu_command,
    menu_item_checked, MenuCommand, MenuItemKind, IDM_BG_SLATE, IDM_EXIT, IDM_REFRESH,
    MENU_LANGUAGE, MENU_MAIN,
    IDM_BORDER_THICK, IDM_FREQ_5MIN, IDM_LANG_ENGLISH, IDM_LANG_SYSTEM, IDM_MARGIN_4,
    IDM_SCHEME_LIGHT, IDM_SIZE_LARGE,
};
use usage_monitor::scheme::{ColorSchemeMode, SettingsColorSchemeMode};
use usage_monitor::settings::{initial_state, language_code, settings_from_state, SettingsFile};
use usage_monitor::state::{
    begin_drag, check_theme_change, drag_to, end_drag, handle_pointer_event, mark_refreshing,
    record_poll_failure, PointerAction, PointerEvent,
    record_poll_success, refresh_usage_texts, toggle_widget_visibility, tray_tooltip,
    WidgetState,
};

const TOGGLE_ID: u16 = 100;

fn fresh(is_dark: bool) -> WidgetState {
    initial_state(&SettingsFile::default(), is_dark, None)
}

#[test]
fn default_settings_give_auto_dark_palette() {
    let s = fresh(true);
    assert_eq!(s.prefs.color_scheme_mode, ColorSchemeMode::Auto);
    assert_eq!(s.prefs.background_color, Color::new(0x16, 0x16, 0x16));
    assert_eq!(s.prefs.poll_interval_ms, 900_000);
    assert_eq!(s.prefs.border_width_px, 1);
    assert_eq!(s.language, LanguageId::PortugueseBrazil);
    assert_eq!(s.session_text, "--");
    assert!(!s.last_poll_ok);
}

#[test]
fn settings_colours_make_scheme_custom_when_unnamed() {
    let mut f = SettingsFile::default();
    f.color_scheme_mode = None;
    f.font_color_hex = Some("#C9D1D9".to_string());
    let s = initial_state(&f, false, None);
    assert_eq!(s.prefs.color_scheme_mode, ColorSchemeMode::Custom);
    assert_eq!(s.prefs.font_color, Color::new(0xC9, 0xD1, 0xD9));
    assert_eq!(s.prefs.background_color, Color::new(0xF4, 0xF6, 0xF8));
}

#[test]
fn theme_change_recolours_auto_only() {
    let mut s = fresh(true);
    assert!(check_theme_change(&mut s, false));
    assert_eq!(s.prefs.background_color, Color::new(0xF4, 0xF6, 0xF8));
    assert!(!check_theme_change(&mut s, false));
    apply_menu_command(&mut s, MenuCommand::SetBackground(Color::new(1, 2, 3)), None);
    assert!(check_theme_change(&mut s, true));
    assert_eq!(s.prefs.background_color, Color::new(1, 2, 3));
}

#[test]
fn toggling_twice_restores_visibility() {
    let mut s = fresh(true);
    assert!(!toggle_widget_visibility(&mut s));
    assert!(toggle_widget_visibility(&mut s));
}

#[test]
fn poll_failures_then_success() {
    let mut s = fresh(true);
    assert_eq!(record_poll_failure(&mut s), 30_000);
    assert_eq!(record_poll_failure(&mut s), 60_000);
    assert_eq!(s.retry_count, 2);
    assert_eq!(s.session_text, "...");
    assert_eq!(
        record_poll_success(&mut s, Some(("42%".to_string(), "7%".to_string()))),
        Some(900_000)
    );
    assert_eq!(s.retry_count, 0);
    assert_eq!(s.session_text, "42%");
    assert_eq!(record_poll_success(&mut s, None), None);
    assert_eq!(s.weekly_text, "7%");
}

#[test]
fn texts_refresh_only_after_success() {
    let mut s = fresh(true);
    refresh_usage_texts(&mut s, Some(("a".to_string(), "b".to_string())));
    assert_eq!(s.session_text, "--");
    mark_refreshing(&mut s);
    assert_eq!(s.weekly_text, "...");
}

#[test]
fn tooltip_text() {
    let mut s = fresh(true);
    assert_eq!(tray_tooltip(&s), "Code Usage Monitor");
    record_poll_success(&mut s, Some(("1h 2m".to_string(), "3d".to_string())));
    assert_eq!(tray_tooltip(&s), "5h: 1h 2m | 7d: 3d");
}

#[test]
fn dragging_moves_offset() {
    let mut s = fresh(true);
    assert_eq!(drag_to(&mut s, 10, None), None);
    begin_drag(&mut s, 500);
    let taskbar = Rect { left: 0, top: 0, right: 1000, bottom: 40 };
    assert_eq!(drag_to(&mut s, 400, Some((taskbar, Some(900), 232))), Some(100));
    assert_eq!(drag_to(&mut s, 0, Some((taskbar, Some(900), 232))), Some(500));
    assert_eq!(drag_to(&mut s, 0, Some((taskbar, None, 232))), Some(500));
    assert_eq!(drag_to(&mut s, 900, None), Some(0));
    assert_eq!(end_drag(&mut s), Some(0));
    assert_eq!(end_drag(&mut s), None);
}

#[test]
fn menu_ids_map_to_commands() {
    assert_eq!(menu_command(1, TOGGLE_ID), MenuCommand::Refresh);
    assert_eq!(menu_command(2, TOGGLE_ID), MenuCommand::Exit);
    assert_eq!(menu_command(IDM_FREQ_5MIN, TOGGLE_ID), MenuCommand::SetPollInterval(300_000));
    assert_eq!(menu_command(IDM_SIZE_LARGE, TOGGLE_ID), MenuCommand::SetWidgetSize(400, 50));
    assert_eq!(menu_command(TOGGLE_ID, TOGGLE_ID), MenuCommand::ToggleWidget);
    assert_eq!(menu_command(999, TOGGLE_ID), MenuCommand::Ignore);
    assert_eq!(menu_command(2, 2), MenuCommand::Exit);
}

#[test]
fn chosen_items_become_checked() {
    let mut s = fresh(true);
    for id in [
        IDM_FREQ_5MIN,
        IDM_LANG_ENGLISH,
        IDM_LANG_SYSTEM,
        IDM_SIZE_LARGE,
        IDM_BG_SLATE,
        IDM_BORDER_THICK,
        IDM_MARGIN_4,
        IDM_SCHEME_LIGHT,
    ] {
        apply_menu_command(&mut s, menu_command(id, TOGGLE_ID), None);
        assert!(menu_item_checked(id, TOGGLE_ID, &s.prefs, false));
    }
    assert_eq!(s.language, LanguageId::PortugueseBrazil);
    assert_eq!(s.prefs.language_override, None);
    assert!(menu_item_checked(TOGGLE_ID, TOGGLE_ID, &s.prefs, false));
    assert!(!menu_item_checked(IDM_FREQ_5MIN + 1, TOGGLE_ID, &s.prefs, false));
}

#[test]
fn frame_presets_are_clamped() {
    let mut s = fresh(true);
    apply_menu_command(&mut s, MenuCommand::SetBorder(9), None);
    apply_menu_command(&mut s, MenuCommand::SetPadding(-3), None);
    apply_menu_command(&mut s, MenuCommand::SetMargin(40), None);
    assert_eq!(s.prefs.border_width_px, 6);
    assert_eq!(s.prefs.panel_padding_px, 0);
    assert_eq!(s.prefs.panel_margin_px, 16);
}

#[test]
fn saved_settings_restore_preferences() {
    let mut s = fresh(false);
    apply_menu_command(&mut s, MenuCommand::SetIndicator(Color::new(0x5A, 0xC7, 0x9B)), None);
    apply_menu_command(&mut s, MenuCommand::SetLanguage(Some(LanguageId::English)), None);
    apply_menu_command(&mut s, MenuCommand::SetPollInterval(60_000), None);
    let f = settings_from_state(&s);
    assert_eq!(f.language.as_deref(), Some("en"));
    assert_eq!(f.indicator_color_hex.as_deref(), Some("#5AC79B"));
    assert_eq!(f.color_scheme_mode, None);
    let back = initial_state(&f, true, Some(LanguageId::English));
    assert_eq!(back.prefs.indicator_color, s.prefs.indicator_color);
    assert_eq!(back.prefs.background_color, s.prefs.background_color);
    assert_eq!(back.prefs.color_scheme_mode, ColorSchemeMode::Custom);
    assert_eq!(back.prefs.poll_interval_ms, 60_000);
    assert_eq!(back.prefs.language_override, Some(LanguageId::PortugueseBrazil));
}

#[test]
fn language_codes() {
    assert_eq!(language_code(LanguageId::English), "en");
    assert_eq!(language_code(LanguageId::PortugueseBrazil), "pt-BR");
}

#[test]
fn default_settings_file() {
    let f = SettingsFile::default();
    assert_eq!(f.color_scheme_mode, Some(SettingsColorSchemeMode::Auto));
    assert!(f.widget_visible);
    assert_eq!(f.panel_margin_px, 1);
    assert_eq!(f.panel_padding_px, 0);
}

#[test]
fn language_change_reformats_texts() {
    let mut s = fresh(true);
    record_poll_success(&mut s, Some(("1 hora".to_string(), "3 dias".to_string())));
    let e = apply_menu_command(
        &mut s,
        MenuCommand::SetLanguage(Some(LanguageId::English)),
        Some(("1 hour".to_string(), "3 days".to_string())),
    );
    assert_eq!(s.language, LanguageId::English);
    assert_eq!(s.session_text, "1 hour");
    assert!(e.save_settings && e.render && e.update_title);
}

#[test]
fn system_default_follows_system_language() {
    let mut s = initial_state(&SettingsFile::default(), true, Some(LanguageId::English));
    assert_eq!(s.language, LanguageId::PortugueseBrazil);
    apply_menu_command(&mut s, MenuCommand::SetLanguage(None), None);
    assert_eq!(s.language, LanguageId::English);
}

#[test]
fn command_effects() {
    let mut s = fresh(true);
    let e = apply_menu_command(&mut s, MenuCommand::Refresh, None);
    assert!(e.start_poll && e.render && !e.save_settings);
    assert_eq!(s.session_text, "...");
    let e = apply_menu_command(&mut s, MenuCommand::SetPollInterval(60_000), None);
    assert_eq!(e.poll_timer_ms, Some(60_000));
    let e = apply_menu_command(&mut s, MenuCommand::ToggleWidget, None);
    assert_eq!(e.show_widget, Some(false));
    assert!(!e.reposition);
    let e = apply_menu_command(&mut s, MenuCommand::ToggleWidget, None);
    assert_eq!(e.show_widget, Some(true));
    assert!(e.reposition && e.render);
    let e = apply_menu_command(&mut s, MenuCommand::Exit, None);
    assert!(e.quit);
    let e = apply_menu_command(&mut s, MenuCommand::Ignore, None);
    assert!(!e.quit && !e.save_settings && e.show_widget.is_none());
}

#[test]
fn context_menu_layout() {
    let s = fresh(true);
    let strings = LanguageId::PortugueseBrazil.strings();
    let items = context_menu_items(&s.prefs, strings, true, TOGGLE_ID);
    assert_eq!(items.len(), 49);
    assert_eq!(items[0].kind, MenuItemKind::Command(IDM_REFRESH));
    assert_eq!(items[0].label, "Atualizar");
    assert_eq!(items[3].label, strings.fifteen_minutes);
    assert!(items[3].checked);
    assert_eq!(items[5].kind, MenuItemKind::Submenu(1));
    assert!(items[6].checked);
    let lang: Vec<_> = items.iter().filter(|i| i.menu == MENU_LANGUAGE).collect();
    assert_eq!(lang.len(), 3);
    assert_eq!(lang[0].label, "Padrão do sistema");
    assert_eq!(lang[2].label, "Português (Brasil)");
    assert!(lang[2].checked);
    let last = items[48];
    assert_eq!(last.kind, MenuItemKind::Command(IDM_EXIT));
    assert_eq!(last.menu, MENU_MAIN);
    assert_eq!(items[47].kind, MenuItemKind::Separator);
    assert_eq!(items[46].kind, MenuItemKind::Command(TOGGLE_ID));
    assert!(items[46].checked);
}

#[test]
fn fallback_menu_preferences() {
    let p = fallback_preferences();
    assert_eq!(p.poll_interval_ms, 900_000);
    assert_eq!(p.language_override, None);
    assert_eq!(p.background_color, Color::new(0x16, 0x16, 0x16));
    assert_eq!(p.color_scheme_mode, ColorSchemeMode::Auto);
    assert!(p.widget_visible);
}

#[test]
fn pointer_events_drive_drags() {
    let mut s = fresh(true);
    assert_eq!(
        handle_pointer_event(&mut s, PointerEvent::ButtonDown { client_x: 40, screen_x: 900 }, 96),
        PointerAction::Nothing
    );
    assert!(!s.dragging);
    assert_eq!(
        handle_pointer_event(&mut s, PointerEvent::ButtonDown { client_x: 5, screen_x: 900 }, 96),
        PointerAction::Capture
    );
    assert_eq!(
        handle_pointer_event(&mut s, PointerEvent::Move { screen_x: 850, limit: None }, 96),
        PointerAction::MoveTo(50)
    );
    assert_eq!(handle_pointer_event(&mut s, PointerEvent::ButtonUp, 96), PointerAction::ReleaseAndSave);
    assert_eq!(handle_pointer_event(&mut s, PointerEvent::ButtonUp, 96), PointerAction::Nothing);
    assert_eq!(s.prefs.tray_offset, 50);
}
