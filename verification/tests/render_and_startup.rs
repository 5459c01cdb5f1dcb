use usage_monitor::appearance::Color;
use usage_monitor::layout::Rect;
use usage_monitor::render::{
    apply_layered_alpha, panel_border_color, panel_layout, panel_layout_fits_check, row_geometry,
    row_geometry_fits_check, segment_rect, taskbar_background_color, track_color,
};
use usage_monitor::startup::startup_entry_matches;

#[test]
fn layered_alpha_separates_background() {
    let mut px = [0x00AB_CDEF_u32, 0x12AB_CDEF, 0x0000_0001, 0xFF00_0000];
    apply_layered_alpha(&mut px, 0xAB_CDEF);
    assert_eq!(px, [0x0100_0000, 0x0100_0000, 0xFF00_0001, 0xFF00_0000]);
}

#[test]
fn frame_colours() {
    assert_eq!(taskbar_background_color(true), Color::new(0x1C, 0x1C, 0x1C));
    assert_eq!(taskbar_background_color(false), Color::new(0xF3, 0xF3, 0xF3));
    assert_eq!(track_color(Color::new(0x5B, 0x8D, 0xEF)), Color::new(0x03, 0x35, 0x97));
    assert_eq!(panel_border_color(Color::new(0x16, 0x16, 0x16)), Color::new(0x2A, 0x2A, 0x2A));
}

#[test]
fn panel_layout_at_standard_dpi() {
    assert!(panel_layout_fits_check(232, 44, 96, 1, 0));
    let l = panel_layout(232, 44, 96, 9, 1, 0);
    assert_eq!(l.panel, Rect { left: 1, top: 1, right: 231, bottom: 43 });
    assert_eq!(l.border_px, 6);
    assert_eq!(l.radius, 10);
    assert_eq!(l.content_x, 14);
    assert_eq!(l.row1_y, 6);
    assert_eq!(l.row2_y, 26);
    assert_eq!(l.font_height, -11);
}

#[test]
fn panel_rows_never_above_inset() {
    let l = panel_layout(232, 20, 96, -1, 1, 2);
    assert_eq!(l.border_px, 0);
    assert_eq!(l.row1_y, 3);
    assert!(!panel_layout_fits_check(i32::MIN, 44, 96, 1, 0));
}

#[test]
fn row_geometry_at_standard_dpi() {
    assert!(row_geometry_fits_check(14, 6, 96));
    let g = row_geometry(14, 6, 96);
    assert_eq!(g.label, Rect { left: 14, top: 6, right: 32, bottom: 18 });
    assert_eq!(g.bar_x, 40);
    assert_eq!(g.segment_step, 11);
    assert_eq!(g.text, Rect { left: 157, top: 6, right: 219, bottom: 18 });
    assert_eq!(segment_rect(&g, 3), Rect { left: 73, top: 6, right: 83, bottom: 18 });
}

#[test]
fn startup_entry_comparison() {
    assert!(startup_entry_matches("C:\\Tools\\Monitor.EXE\0\0", "c:\\tools\\monitor.exe"));
    assert!(!startup_entry_matches("C:\\Tools\\Other.exe", "C:\\Tools\\Monitor.exe"));
    assert!(!startup_entry_matches("C:\\Ä.exe", "C:\\ä.exe"));
    assert!(!startup_entry_matches("", "C:\\a.exe"));
    assert!(startup_entry_matches("\0", ""));
}
