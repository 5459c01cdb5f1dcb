use usage_monitor::layout::{
    base_widget_width, base_widget_width_fits, compute_anchor_y, drag_offset, in_drag_zone,
    low_word, refreshed_dpi, scale_px, signed_low_word, total_widget_height,
    total_widget_height_fits, total_widget_width, total_widget_width_fits, wants_resize_cursor,
    widget_placement, Placement, Rect,
};

#[test]
fn scaling_rounds_halves_away_from_zero() {
    assert_eq!(scale_px(10, 96), 10);
    assert_eq!(scale_px(10, 144), 15);
    assert_eq!(scale_px(1, 144), 2);
    assert_eq!(scale_px(-11, 144), -17);
    assert_eq!(scale_px(3, 120), 4);
    assert_eq!(scale_px(5, 0), 0);
}

#[test]
fn scaling_saturates() {
    assert_eq!(scale_px(i32::MAX, u32::MAX), i32::MAX);
    assert_eq!(scale_px(i32::MIN, u32::MAX), i32::MIN);
}

#[test]
fn base_width_at_standard_dpi() {
    assert!(base_widget_width_fits(96));
    assert_eq!(base_widget_width(96), 230);
    assert!(!base_widget_width_fits(u32::MAX));
}

#[test]
fn total_width_respects_minimum() {
    assert!(total_widget_width_fits(96, 1, 0));
    assert_eq!(total_widget_width(96, 1, 0, 0), 232);
    assert_eq!(total_widget_width(96, 1, 0, 300), 300);
    assert_eq!(total_widget_width(96, 1, 0, 100), 232);
    assert_eq!(total_widget_width(96, -5, 2, 0), 230);
    assert!(!total_widget_width_fits(96, i32::MAX, 1));
}

#[test]
fn total_height_custom_and_default() {
    assert!(total_widget_height_fits(96, 1, 0));
    assert_eq!(total_widget_height(96, 1, 0, 0), 44);
    assert_eq!(total_widget_height(96, 1, 0, 30), 38);
    assert_eq!(total_widget_height(96, 1, 0, 50), 50);
}

#[test]
fn anchor_rests_on_bottom_or_top() {
    assert_eq!(compute_anchor_y(1000, 48, 44), 1004);
    assert_eq!(compute_anchor_y(1000, 40, 44), 1000);
}

#[test]
fn placement_embedded_and_floating() {
    let taskbar = Rect { left: 0, top: 1032, right: 1920, bottom: 1080 };
    assert_eq!(
        widget_placement(taskbar, Some(1700), true, 10, 232, 44),
        Placement { x: 1458, y: 4, width: 232, height: 44 }
    );
    assert_eq!(
        widget_placement(taskbar, None, false, 0, 232, 44),
        Placement { x: 1688, y: 1036, width: 232, height: 44 }
    );
}

#[test]
fn drag_offsets_are_clamped() {
    let taskbar = Rect { left: 0, top: 1032, right: 1920, bottom: 1080 };
    assert_eq!(drag_offset(10, 500, 450, None), 60);
    assert_eq!(drag_offset(10, 500, 600, None), 0);
    assert_eq!(drag_offset(0, 2000, 0, Some((taskbar, Some(1700), 232))), 1468);
}

#[test]
fn message_words() {
    assert_eq!(low_word(0x1234_5678), 0x5678);
    assert_eq!(signed_low_word(0xFFFF), -1);
    assert_eq!(signed_low_word(0x0001_0005), 5);
}

#[test]
fn dpi_refresh_and_cursor() {
    assert_eq!(refreshed_dpi(96, 0), 96);
    assert_eq!(refreshed_dpi(96, 144), 144);
    assert!(in_drag_zone(12, 96));
    assert!(!in_drag_zone(13, 96));
    assert!(wants_resize_cursor(true, 5, 500, 96));
    assert!(wants_resize_cursor(false, 1, 3, 96));
    assert!(!wants_resize_cursor(false, 2, 3, 96));
}
