use winmac::dpi::{
    current_dpi_for_window, current_system_dpi, font_heights, fonts_need_rebuild, normalized_dpi,
};
use winmac::geometry::{
    centered_x, centered_y, checkbox_frame, main_window_frame, render_target_extent, slide_step,
    Frame, Rect,
};
use winmac::overlay::{
    overlay_theme_for, quit_prompt_visual, quit_prompt_visual_zh, OverlayTheme,
    RenderTargetCache, TargetAction,
};
use winmac::text::{quote_path, same_text, truncate_label, window_title_label};
use winmac::theme::{dark_mode_flag, theme_from_registry, ThemeMode};
use winmac::wide::{
    colorref_from_rgb, copy_wide_text, hiword, loword, to_text_wide, to_wide, wide_to_le_bytes,
};

#[test]
fn truncate_label_edges() {
    assert_eq!(truncate_label("abcdef", 0), "");
    assert_eq!(truncate_label("abcdef", 2), "..");
    assert_eq!(truncate_label("abcdef", 4), "a...");
    assert_eq!(truncate_label("abcdef", 6), "abcdef");
    assert_eq!(truncate_label("日本語のタイトルです", 7), "日本語の...");
    assert_eq!(truncate_label("", 5), "");
}

#[test]
fn window_title_label_trims_and_shortens() {
    let title = to_text_wide("  Untitled - Notepad \t");
    assert_eq!(window_title_label(22, &title), "Untitled - Notepad");
    let long = to_text_wide("A very long window title that goes on and on");
    assert_eq!(window_title_label(44, &long), "A very long window title that...");
    assert_eq!(window_title_label(0, &title), "Current window");
    assert_eq!(window_title_label(-1, &title), "Current window");
    let lone_surrogate = vec![0x41u16, 0xD800, 0x42];
    assert_eq!(window_title_label(3, &lone_surrogate), "A\u{FFFD}B");
}

#[test]
fn wide_strings_end_with_terminator() {
    assert_eq!(to_wide("Hi"), vec![0x48, 0x69, 0]);
    assert_eq!(to_text_wide("Hi"), vec![0x48, 0x69]);
    assert_eq!(to_text_wide("é😀"), vec![0xE9, 0xD83D, 0xDE00]);
    assert_eq!(to_text_wide("é😀"), "é😀".encode_utf16().collect::<Vec<u16>>());
    assert_eq!(to_wide(""), vec![0]);
}

#[test]
fn copy_wide_text_truncates_to_buffer() {
    let mut small = [7u16; 4];
    copy_wide_text(&mut small, "WinMac");
    assert_eq!(small, [0x57, 0x69, 0x6E, 0x4D]);
    let mut large = [7u16; 8];
    copy_wide_text(&mut large, "Win");
    assert_eq!(large, [0x57, 0x69, 0x6E, 0, 7, 7, 7, 7]);
}

#[test]
fn registry_bytes_are_little_endian() {
    let units = to_wide("\"C:\\a\"");
    let bytes = wide_to_le_bytes(&units);
    assert_eq!(bytes.len(), units.len() * 2);
    assert_eq!(&bytes[..4], &[0x22, 0, 0x43, 0]);
    assert_eq!(wide_to_le_bytes(&vec![0x1234]), vec![0x34, 0x12]);
}

#[test]
fn quote_path_wraps_in_quotes() {
    assert_eq!(quote_path("C:\\Program Files\\winmac.exe"), "\"C:\\Program Files\\winmac.exe\"");
    assert_eq!(quote_path(""), "\"\"");
}

#[test]
fn words_and_colours() {
    assert_eq!(loword(0x1234_5678), 0x5678);
    assert_eq!(hiword(0x1234_5678), 0x1234);
    assert_eq!(loword(0), 0);
    assert_eq!(hiword(0xFFFF), 0);
    assert_eq!(colorref_from_rgb(34, 34, 36), 0x0024_2222);
    assert_eq!(colorref_from_rgb(255, 0, 0), 0xFF);
    assert_eq!(colorref_from_rgb(0, 0, 255), 0x00FF_0000);
}

#[test]
fn same_text_compares_characters() {
    assert!(same_text("Progman", "Progman"));
    assert!(!same_text("Progman", "progman"));
    assert!(!same_text("Progman", "Progma"));
}

#[test]
fn dpi_is_at_least_96() {
    assert_eq!(normalized_dpi(0), 96);
    assert_eq!(normalized_dpi(144), 144);
    assert_eq!(current_system_dpi(72), 96);
    assert_eq!(current_dpi_for_window(0, 120), 120);
    assert_eq!(current_dpi_for_window(0, 0), 96);
    assert_eq!(current_dpi_for_window(192, 120), 192);
    assert_eq!(current_dpi_for_window(50, 120), 96);
}

#[test]
fn fonts_follow_dpi() {
    let heights = font_heights(144);
    assert_eq!(heights.title, 39);
    assert_eq!(heights.body, 27);
    assert_eq!(heights.overlay, 30);
    assert!(fonts_need_rebuild(false, 96, 96));
    assert!(!fonts_need_rebuild(true, 96, 96));
    assert!(!fonts_need_rebuild(true, 96, 60));
    assert!(fonts_need_rebuild(true, 96, 144));
}

#[test]
fn window_frames() {
    assert_eq!(centered_x(1920, 420), 750);
    assert_eq!(centered_y(1080, 250), 415);
    assert_eq!(centered_x(100, 421), -160);
    assert_eq!(main_window_frame(144, 1920, 1080), Frame { x: 645, y: 352, width: 630, height: 375 });
    assert_eq!(checkbox_frame(96), Frame { x: 24, y: 176, width: 180, height: 28 });
}

#[test]
fn slide_step_stops_at_rest() {
    let step = slide_step(100, 95, 96);
    assert_eq!(step.y, 98);
    assert!(!step.finished);
    let step = slide_step(96, 95, 96);
    assert_eq!(step.y, 95);
    assert!(step.finished);
    let step = slide_step(90, 95, 96);
    assert_eq!(step.y, 90);
    assert!(step.finished);
}

#[test]
fn render_target_extent_is_at_least_one() {
    assert_eq!(render_target_extent(Rect { left: 0, top: 0, right: 336, bottom: 118 }), (336, 118));
    assert_eq!(render_target_extent(Rect { left: 5, top: 5, right: 5, bottom: 2 }), (1, 1));
}

#[test]
fn render_target_cache_plans() {
    let mut cache = RenderTargetCache::new();
    assert_eq!(cache.plan(336, 118, 96), TargetAction::Create);
    cache.target_created(336, 118, 96);
    assert_eq!(cache.plan(336, 118, 96), TargetAction::Keep);
    assert_eq!(cache.plan(400, 118, 96), TargetAction::Resize);
    cache.target_resized(400, 118);
    assert_eq!(cache.plan(400, 118, 96), TargetAction::Keep);
    assert_eq!(cache.plan(400, 118, 144), TargetAction::Create);
    cache.target_lost();
    assert_eq!(cache.plan(400, 118, 96), TargetAction::Create);
    cache.discard();
    assert_eq!(cache, RenderTargetCache::new());
}

#[test]
fn theme_follows_registry() {
    assert_eq!(theme_from_registry(true, 0), ThemeMode::Dark);
    assert_eq!(theme_from_registry(true, 1), ThemeMode::Light);
    assert_eq!(theme_from_registry(false, 0), ThemeMode::Light);
    assert_eq!(ThemeMode::default(), ThemeMode::Light);
    assert_eq!(dark_mode_flag(ThemeMode::Dark), 1);
    assert_eq!(dark_mode_flag(ThemeMode::Light), 0);
    assert_eq!(overlay_theme_for(ThemeMode::Dark), OverlayTheme::Dark);
    assert_eq!(overlay_theme_for(ThemeMode::Light), OverlayTheme::Light);
}

#[test]
fn quit_prompt_content() {
    let visual = quit_prompt_visual(ThemeMode::Dark, "");
    assert_eq!(visual.theme, OverlayTheme::Dark);
    assert_eq!(visual.title, "Current window");
    assert_eq!(visual.subtitle, "Press Alt + Q again to close");
    assert_eq!(visual.hint, "Press again to quit");
    assert_eq!(visual.badge, "WinMac");
    let visual = quit_prompt_visual(ThemeMode::Light, "Notes");
    assert_eq!(visual.theme, OverlayTheme::Light);
    assert_eq!(visual.title, "Notes");
    let visual = quit_prompt_visual_zh(ThemeMode::Light, "");
    assert_eq!(visual.title, "当前窗口");
    assert_eq!(visual.badge, "WinMac Quick Quit");
}
