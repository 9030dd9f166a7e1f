use winmac::geometry::{compute_overlay_target_y, compute_overlay_x, rect_covers_monitor, scale_px, Rect};
use winmac::text::truncate_label;
use winmac::tracking::should_restore_last_minimized;

fn rect(left: i32, top: i32, right: i32, bottom: i32) -> Rect {
    Rect { left, top, right, bottom }
}

#[test]
fn truncate_label_keeps_short_text() {
    assert_eq!(truncate_label("Explorer", 32), "Explorer");
}

#[test]
fn truncate_label_uses_ascii_ellipsis() {
    assert_eq!(truncate_label("1234567890", 6), "123...");
    assert_eq!(truncate_label("abcd", 3), "...");
}

#[test]
fn scale_px_rounds_for_high_dpi() {
    assert_eq!(scale_px(100, 96), 100);
    assert_eq!(scale_px(100, 144), 150);
}

#[test]
fn compute_overlay_x_centers_in_work_area() {
    assert_eq!(compute_overlay_x(rect(100, 0, 1500, 900), 336), 632);
}

#[test]
fn compute_overlay_target_y_moves_card_lower_than_center() {
    let work = rect(0, 0, 2560, 1400);
    let overlay_height = 118;
    let y = compute_overlay_target_y(work, overlay_height, 96);

    assert_eq!(y, 977);
    assert!(y > (work.bottom - work.top - overlay_height) / 2);
}

#[test]
fn compute_overlay_target_y_clamps_to_bottom_margin() {
    let work = rect(0, 0, 800, 180);
    let overlay_height = 118;

    assert_eq!(compute_overlay_target_y(work, overlay_height, 96), 16);
}

#[test]
fn restore_last_minimized_when_still_on_anchor_window() {
    assert!(should_restore_last_minimized(22, 22));
}

#[test]
fn restore_last_minimized_when_desktop_anchor_matches_current() {
    assert!(should_restore_last_minimized(33, 33));
}

#[test]
fn do_not_restore_after_switching_to_new_manageable_window() {
    assert!(!should_restore_last_minimized(44, 22));
}

#[test]
fn do_not_restore_when_anchor_was_not_captured() {
    assert!(!should_restore_last_minimized(22, 0));
}

#[test]
fn rect_covers_monitor_accepts_fullscreen_with_small_tolerance() {
    assert!(rect_covers_monitor(
        rect(-1, 0, 2560, 1441),
        rect(0, 0, 2560, 1440),
        2,
    ));
}

#[test]
fn rect_covers_monitor_rejects_window_that_only_fills_work_area() {
    assert!(!rect_covers_monitor(
        rect(0, 0, 2560, 1400),
        rect(0, 0, 2560, 1440),
        2,
    ));
}
