use usage_monitor::appearance::{shade_color, Color};
use usage_monitor::events::{
    handle_window_message, placement_for, render_path, RenderPath, TimerKind, WindowMessage,
};
use usage_monitor::layout::{Placement, Rect};
use usage_monitor::settings::{initial_state, SettingsFile};
use usage_monitor::state::{begin_drag, record_poll_success};

#[test]
fn timers_start_polls_or_refresh_countdown() {
    let mut s = initial_state(&SettingsFile::default(), true, None);
    let a = handle_window_message(&mut s, WindowMessage::Timer(TimerKind::Poll), None);
    assert!(a.start_poll && !a.render);
    let a = handle_window_message(&mut s, WindowMessage::Timer(TimerKind::ResetPoll), None);
    assert!(a.start_poll);
    let a = handle_window_message(
        &mut s,
        WindowMessage::Timer(TimerKind::Countdown),
        Some(("x".to_string(), "y".to_string())),
    );
    assert!(a.render && a.schedule_countdown && !a.start_poll);
    assert_eq!(s.session_text, "--");
    record_poll_success(&mut s, None);
    handle_window_message(
        &mut s,
        WindowMessage::Timer(TimerKind::Countdown),
        Some(("1h".to_string(), "2d".to_string())),
    );
    assert_eq!(s.session_text, "1h");
}

#[test]
fn data_and_settings_take_in_theme() {
    let mut s = initial_state(&SettingsFile::default(), true, None);
    let a = handle_window_message(&mut s, WindowMessage::UsageUpdated { system_dark: false }, None);
    assert!(a.render_for_theme && a.render && a.update_tray && a.schedule_countdown);
    assert!(!s.is_dark);
    assert_eq!(s.prefs.background_color, Color::new(0xF4, 0xF6, 0xF8));
    let a = handle_window_message(&mut s, WindowMessage::SettingChanged { system_dark: false }, None);
    assert!(!a.render_for_theme && a.reposition && a.refresh_dpi);
}

#[test]
fn dpi_change_reads_low_word() {
    let mut s = initial_state(&SettingsFile::default(), true, None);
    let a = handle_window_message(&mut s, WindowMessage::DpiChanged { wparam_bits: 0x0090_0090 }, None);
    assert_eq!(a.set_dpi, Some(144));
    assert!(a.reposition && a.render);
    let a = handle_window_message(&mut s, WindowMessage::DisplayChanged, None);
    assert_eq!(a.set_dpi, None);
    assert!(a.refresh_dpi);
}

#[test]
fn render_paths() {
    assert_eq!(render_path(true), RenderPath::Layered);
    assert_eq!(render_path(false), RenderPath::Invalidate);
}

#[test]
fn placement_skipped_while_dragging_or_without_taskbar() {
    let mut s = initial_state(&SettingsFile::default(), true, None);
    let taskbar = Rect { left: 0, top: 1032, right: 1920, bottom: 1080 };
    assert_eq!(placement_for(&s, 96, None, None), None);
    assert_eq!(
        placement_for(&s, 96, Some(taskbar), Some(1700)),
        Some(Placement { x: 1468, y: 1036, width: 232, height: 44 })
    );
    begin_drag(&mut s, 10);
    assert_eq!(placement_for(&s, 96, Some(taskbar), Some(1700)), None);
}

#[test]
fn shading_accepts_large_delta_for_dark_channels() {
    assert_eq!(shade_color(Color::new(0, 0, 0), 32600), Color::new(255, 255, 255));
}
