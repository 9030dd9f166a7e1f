use winmac::control::{
    close_action, visibility_toggle, CloseAction, VisibilityAction, hides_on_size, hotkey_command, hotkey_warning_needed, is_autostart_click,
    request_exit, should_exit, tray_command, tray_menu, tray_notification, AppState,
    HotkeyCommand, TrayCommand, TrayNotification,
};
use winmac::desktop::{
    checked_window_is_fullscreen, foreground_root, manageable_window, window_is_fullscreen,
};
use winmac::geometry::{checked_overlay_placement, overlay_placement, Rect};
use winmac::theme::ThemeMode;
use winmac::tracking::{
    on_hide_hotkey, on_main_timer, on_quit_hotkey, HiddenWindows, HideAction, HideEvent, MinimizeTracker,
    QuitAction, QuitConfirm, QuitEvent,
};
use winmac::text::trim_white_space;
use winmac::wide::to_text_wide;

fn hide_event(foreground: isize, now: u64, manageable: Option<isize>) -> HideEvent {
    HideEvent {
        fullscreen: false,
        foreground,
        now,
        last_restorable: true,
        pending_restorable: true,
        manageable,
    }
}

#[test]
fn second_alt_w_restores_while_anchor_has_focus() {
    let mut tracker = MinimizeTracker::new();
    let action = on_hide_hotkey(&mut tracker, hide_event(22, 1000, Some(22)));
    assert_eq!(action, HideAction::Minimize(22));
    tracker.begin_pending(22, 1000);
    assert_eq!(tracker.pending_window, 22);
    assert_eq!(tracker.pending_deadline, 1040);
    assert!(tracker.resolve_pending_anchor(33, 1005));
    assert_eq!(tracker.last_window, 22);
    assert_eq!(tracker.last_anchor, 33);
    let action = on_hide_hotkey(&mut tracker, hide_event(33, 2000, Some(33)));
    assert_eq!(action, HideAction::Restore(22));
    assert_eq!(tracker, MinimizeTracker::new());
}

#[test]
fn alt_w_after_switching_minimizes_new_window() {
    let mut tracker = MinimizeTracker::new();
    tracker.begin_pending(22, 1000);
    assert!(tracker.resolve_pending_anchor(33, 1001));
    let action = on_hide_hotkey(&mut tracker, hide_event(44, 3000, Some(44)));
    assert_eq!(action, HideAction::Minimize(44));
    assert_eq!(tracker, MinimizeTracker::new());
}

#[test]
fn anchor_wait_times_out_without_anchor() {
    let mut tracker = MinimizeTracker::new();
    tracker.begin_pending(22, 1000);
    assert!(!tracker.resolve_pending_anchor(22, 1020));
    assert_eq!(tracker.pending_window, 22);
    assert!(tracker.resolve_pending_anchor(0, 1040));
    assert_eq!(tracker.last_window, 22);
    assert_eq!(tracker.last_anchor, 0);
    let action = on_hide_hotkey(&mut tracker, hide_event(0, 2000, None));
    assert_eq!(action, HideAction::Nothing);
}

#[test]
fn restore_forgets_window_that_is_gone() {
    let mut tracker = MinimizeTracker {
        last_window: 22,
        last_anchor: 33,
        pending_window: 0,
        pending_deadline: 0,
    };
    assert_eq!(tracker.take_restore_target(false, 33), None);
    assert_eq!(tracker, MinimizeTracker::new());
}

#[test]
fn fullscreen_ignores_both_shortcuts() {
    let mut tracker = MinimizeTracker {
        last_window: 22,
        last_anchor: 33,
        pending_window: 0,
        pending_deadline: 0,
    };
    let before = tracker;
    let mut event = hide_event(33, 10, Some(33));
    event.fullscreen = true;
    assert_eq!(on_hide_hotkey(&mut tracker, event), HideAction::Ignore);
    assert_eq!(tracker, before);

    let mut confirm = QuitConfirm { target: 5, deadline: 100 };
    let quit = QuitEvent { fullscreen: true, manageable: Some(5), now: 50 };
    assert_eq!(on_quit_hotkey(&mut confirm, quit), QuitAction::Ignore);
    assert_eq!(confirm, QuitConfirm { target: 5, deadline: 100 });
}

#[test]
fn double_alt_q_closes_window() {
    let mut confirm = QuitConfirm::new();
    let first = QuitEvent { fullscreen: false, manageable: Some(7), now: 10_000 };
    assert_eq!(on_quit_hotkey(&mut confirm, first), QuitAction::ShowOverlay(7));
    assert_eq!(confirm, QuitConfirm { target: 7, deadline: 11_600 });
    let second = QuitEvent { fullscreen: false, manageable: Some(7), now: 11_600 };
    assert_eq!(on_quit_hotkey(&mut confirm, second), QuitAction::Close(7));
    assert_eq!(confirm, QuitConfirm::new());
}

#[test]
fn late_or_other_alt_q_only_rearms() {
    let mut confirm = QuitConfirm::new();
    assert!(!confirm.press(7, 10_000));
    assert!(!confirm.press(8, 10_100));
    assert_eq!(confirm, QuitConfirm { target: 8, deadline: 11_700 });
    assert!(!confirm.press(8, 11_701));
    assert_eq!(confirm, QuitConfirm { target: 8, deadline: 13_301 });
    let nothing = QuitEvent { fullscreen: false, manageable: None, now: 11_800 };
    assert_eq!(on_quit_hotkey(&mut confirm, nothing), QuitAction::HideOverlay);
    assert_eq!(confirm, QuitConfirm { target: 8, deadline: 13_301 });
}

#[test]
fn hidden_windows_prune_and_restore() {
    let mut hidden = HiddenWindows { windows: vec![1, 2, 3, 4] };
    assert!(hidden.has_hidden());
    hidden.prune(&vec![true, false, true, true]);
    assert_eq!(hidden.windows, vec![1, 3, 4]);
    assert_eq!(hidden.restore_last(), Some(4));
    assert_eq!(hidden.take_all(), vec![1, 3]);
    assert!(!hidden.has_hidden());
    assert_eq!(hidden.restore_last(), None);
}

#[test]
fn foreground_root_prefers_ancestor() {
    assert_eq!(foreground_root(0, 5), 0);
    assert_eq!(foreground_root(7, 0), 7);
    assert_eq!(foreground_root(7, 9), 9);
}

#[test]
fn manageable_window_skips_shell_and_hidden_untitled() {
    let notepad = to_text_wide("Notepad");
    let tray = to_text_wide("Shell_TrayWnd");
    let progman = to_text_wide("Progman");
    let worker = to_text_wide("WorkerW");
    assert_eq!(manageable_window(12, true, &notepad, 5, true), Some(12));
    assert_eq!(manageable_window(12, true, &notepad, 0, true), Some(12));
    assert_eq!(manageable_window(12, true, &notepad, 0, false), None);
    assert_eq!(manageable_window(12, false, &notepad, 5, true), None);
    assert_eq!(manageable_window(0, true, &notepad, 5, true), None);
    assert_eq!(manageable_window(12, true, &tray, 5, true), None);
    assert_eq!(manageable_window(12, true, &progman, 5, true), None);
    assert_eq!(manageable_window(12, true, &worker, 5, true), None);
}

#[test]
fn fullscreen_needs_both_rectangles() {
    let screen = Rect { left: 0, top: 0, right: 1920, bottom: 1080 };
    assert!(window_is_fullscreen(Some(screen), Some(screen)));
    assert!(!window_is_fullscreen(None, Some(screen)));
    assert!(!window_is_fullscreen(Some(screen), None));
    let shifted = Rect { left: 3, top: 0, right: 1920, bottom: 1080 };
    assert!(!window_is_fullscreen(Some(shifted), Some(screen)));
}

#[test]
fn overlay_placement_at_150_percent() {
    let work = Rect { left: 0, top: 0, right: 1920, bottom: 1040 };
    let placement = overlay_placement(work, 144);
    assert_eq!(placement.width, 504);
    assert_eq!(placement.height, 177);
    assert_eq!(placement.x, 708);
    assert_eq!(placement.target_y, 681);
    assert_eq!(placement.start_y, 693);
}

#[test]
fn overlay_slides_up_to_rest() {
    let mut state = AppState::new(ThemeMode::Light, false);
    let work = Rect { left: 0, top: 0, right: 2560, bottom: 1400 };
    let placement = overlay_placement(work, 96);
    state.begin_overlay(placement, "Notes".to_string(), 96);
    assert_eq!(state.overlay.y, 985);
    let mut ticks = 0;
    loop {
        let step = state.overlay_tick();
        ticks += 1;
        if step.finished {
            assert_eq!(step.y, 977);
            break;
        }
    }
    assert_eq!(ticks, 4);
    assert_eq!(state.overlay.y, 977);
}

#[test]
fn exit_and_close_behaviour() {
    let mut state = AppState::new(ThemeMode::Dark, true);
    assert!(!should_exit(&state));
    request_exit(&mut state);
    assert!(should_exit(&state));
    assert_eq!(state.theme, ThemeMode::Dark);
    assert!(state.autostart_enabled);
}

#[test]
fn autostart_changes_only_when_applied() {
    let mut state = AppState::new(ThemeMode::Light, false);
    let wanted = state.autostart_toggle_target();
    assert!(wanted);
    state.record_autostart(wanted, false);
    assert!(!state.autostart_enabled);
    state.record_autostart(wanted, true);
    assert!(state.autostart_enabled);
}

#[test]
fn fonts_recorded_at_normalized_dpi() {
    let mut state = AppState::new(ThemeMode::Light, false);
    state.record_fonts(72);
    assert!(state.fonts_loaded);
    assert_eq!(state.font_dpi, 96);
    state.forget_fonts();
    assert!(!state.fonts_loaded);
}

#[test]
fn message_decoding() {
    assert_eq!(hotkey_command(1), Some(HotkeyCommand::Hide));
    assert_eq!(hotkey_command(2), Some(HotkeyCommand::Quit));
    assert_eq!(hotkey_command(3), None);
    assert_eq!(tray_command(2001), Some(TrayCommand::ToggleWindow));
    assert_eq!(tray_command(2002), Some(TrayCommand::RestoreLast));
    assert_eq!(tray_command(2003), Some(TrayCommand::RestoreAll));
    assert_eq!(tray_command(2004), Some(TrayCommand::ToggleAutostart));
    assert_eq!(tray_command(2005), Some(TrayCommand::Exit));
    assert_eq!(tray_command(0), None);
    assert_eq!(tray_notification(0x007B), TrayNotification::ShowMenu);
    assert_eq!(tray_notification(0x0205), TrayNotification::ShowMenu);
    assert_eq!(tray_notification(0x0203), TrayNotification::ToggleWindow);
    assert_eq!(tray_notification(0x0400), TrayNotification::ToggleWindow);
    assert_eq!(tray_notification(0x0201), TrayNotification::Other);
    assert!(is_autostart_click(1001));
    assert!(!is_autostart_click(1001 | (1 << 16)));
    assert!(!is_autostart_click(1002));
    assert!(hides_on_size(1));
    assert!(!hides_on_size(0));
    assert!(!hides_on_size(2));
    assert!(hotkey_warning_needed(true, false));
    assert!(!hotkey_warning_needed(true, true));
}

#[test]
fn tray_menu_reflects_state() {
    let menu = tray_menu(true, false, true);
    assert_eq!(menu.toggle_label, "Hide Settings");
    assert!(!menu.restore_enabled);
    assert!(menu.autostart_checked);
    assert_eq!(menu.exit_label, "Quit WinMac");
    let menu = tray_menu(false, true, false);
    assert_eq!(menu.toggle_label, "Show Settings");
    assert!(menu.restore_enabled);
    assert!(!menu.autostart_checked);
    assert_eq!(menu.restore_last_label, "Restore Last Hidden Window");
    assert_eq!(menu.restore_all_label, "Restore All Hidden Windows");
    assert_eq!(menu.autostart_label, "Launch At Login");
}

#[test]
fn checked_variants_refuse_overflow() {
    let work = Rect { left: 0, top: 0, right: 2560, bottom: 1400 };
    assert_eq!(checked_overlay_placement(work, 96), Some(overlay_placement(work, 96)));
    let huge = Rect { left: i32::MIN, top: 0, right: i32::MAX, bottom: 1400 };
    assert_eq!(checked_overlay_placement(huge, 96), None);
    let screen = Rect { left: 0, top: 0, right: 1920, bottom: 1080 };
    assert_eq!(checked_window_is_fullscreen(Some(screen), Some(screen)), Some(true));
    assert_eq!(checked_window_is_fullscreen(None, Some(screen)), Some(false));
    let far = Rect { left: i32::MIN, top: 0, right: 1920, bottom: 1080 };
    assert_eq!(checked_window_is_fullscreen(Some(screen), Some(far)), None);
    let off_left = Rect { left: 100, top: i32::MIN, right: 1920, bottom: 1080 };
    assert_eq!(checked_window_is_fullscreen(Some(off_left), Some(screen)), Some(false));
}

#[test]
fn closing_hides_until_exit() {
    let mut state = AppState::new(ThemeMode::Light, false);
    assert_eq!(close_action(&state), CloseAction::Hide);
    request_exit(&mut state);
    assert_eq!(close_action(&state), CloseAction::Destroy);
    assert_eq!(visibility_toggle(true), VisibilityAction::Hide);
    assert_eq!(visibility_toggle(false), VisibilityAction::Restore);
}

#[test]
fn anchor_timer_stops_once_settled() {
    let mut tracker = MinimizeTracker::new();
    tracker.begin_pending(22, 1000);
    assert!(!on_main_timer(&mut tracker, 3001, 33, 1005));
    assert_eq!(tracker.pending_window, 22);
    assert!(!on_main_timer(&mut tracker, 3003, 22, 1005));
    assert_eq!(tracker.pending_window, 22);
    assert!(on_main_timer(&mut tracker, 3003, 33, 1006));
    assert_eq!(tracker.last_window, 22);
    assert_eq!(tracker.last_anchor, 33);
    assert!(on_main_timer(&mut tracker, 3003, 0, 5000));
}

#[test]
fn state_mutators_touch_only_their_fields() {
    let mut state = AppState::new(ThemeMode::Dark, true);
    state.minimize.begin_pending(22, 1000);
    assert!(!state.quit.press(7, 50));
    let tracker = state.minimize;
    let confirm = state.quit;
    state.record_autostart(false, true);
    state.record_fonts(144);
    let placement = overlay_placement(Rect { left: 0, top: 0, right: 2560, bottom: 1400 }, 96);
    state.begin_overlay(placement, "Notes".to_string(), 96);
    state.overlay_tick();
    state.forget_fonts();
    assert!(!state.exiting);
    assert_eq!(state.theme, ThemeMode::Dark);
    assert!(!state.autostart_enabled);
    assert_eq!(state.font_dpi, 144);
    assert_eq!(state.minimize, tracker);
    assert_eq!(state.quit, confirm);
    assert_eq!(state.overlay.title, "Notes");
    request_exit(&mut state);
    assert!(state.exiting);
    assert_eq!(state.overlay.y, 983);
}

#[test]
fn trim_removes_unicode_white_space() {
    assert_eq!(trim_white_space("  a b \t\n"), "a b");
    assert_eq!(trim_white_space("\u{3000}x\u{00A0}"), "x");
    assert_eq!(trim_white_space(" \u{2028} "), "");
    assert_eq!(trim_white_space(""), "");
    assert_eq!(trim_white_space("x"), "x");
}
