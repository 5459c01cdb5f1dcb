use usage_monitor::polling::{
    countdown_delay, on_tray_location_changed, retry_delay, should_reposition,
};

#[test]
fn retries_back_off_exponentially() {
    assert_eq!(retry_delay(1, 900_000), 30_000);
    assert_eq!(retry_delay(2, 900_000), 60_000);
    assert_eq!(retry_delay(3, 900_000), 120_000);
}

#[test]
fn retries_never_exceed_poll_interval() {
    assert_eq!(retry_delay(6, 900_000), 900_000);
    assert_eq!(retry_delay(1, 10_000), 10_000);
    assert_eq!(retry_delay(40, u32::MAX), u32::MAX);
    assert_eq!(retry_delay(u32::MAX, 60_000), 60_000);
}

#[test]
fn countdown_uses_nearest_reset() {
    assert_eq!(countdown_delay(Some(5_000), Some(3_000)), 3_000);
    assert_eq!(countdown_delay(None, Some(7_000)), 7_000);
    assert_eq!(countdown_delay(None, None), 60_000);
    assert_eq!(countdown_delay(Some(10), None), 1_000);
    assert_eq!(countdown_delay(Some((1u128 << 32) + 5_000), None), 5_000);
}

#[test]
fn tray_moves_are_debounced() {
    assert!(should_reposition(None));
    assert!(should_reposition(Some(501)));
    assert!(!should_reposition(Some(500)));
}

#[test]
fn tray_callbacks_move_at_most_every_half_second() {
    let mut last = None;
    assert!(!on_tray_location_changed(&mut last, 1_000, false));
    assert_eq!(last, None);
    assert!(on_tray_location_changed(&mut last, 1_000, true));
    assert_eq!(last, Some(1_000));
    assert!(!on_tray_location_changed(&mut last, 1_500, true));
    assert_eq!(last, Some(1_000));
    assert!(on_tray_location_changed(&mut last, 1_501, true));
    assert!(!on_tray_location_changed(&mut last, 900, true));
}
