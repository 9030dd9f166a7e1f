//! The tool's state as a whole, and the decisions of its window procedure
//! and tray menu: which message means which command, what the menu shows,
//! and what closing, exiting and the launch-at-login switch change.
use vstd::prelude::*;
use crate::dpi::{normalized_dpi, spec_normalized_dpi};
use crate::geometry::{
    slide_step,
    slide_step_defined,
    spec_slide_y,
    OverlayPlacement,
    SlideStep,
};
use crate::theme::ThemeMode;
use crate::tracking::{cleared_tracker, HiddenWindows, MinimizeTracker, QuitConfirm};
use crate::wide::{hiword, loword};

verus! {

/// The hotkey id of Alt+W.
pub const HOTKEY_HIDE_ID: i32 = 1;
/// The hotkey id of Alt+Q.
pub const HOTKEY_QUIT_ID: i32 = 2;
/// The control id of the launch-at-login checkbox.
pub const ID_CHECK_AUTOSTART: u16 = 1001;
/// The notification code of a button click (`BN_CLICKED`).
pub const BUTTON_CLICKED: u16 = 0;
/// Tray menu command: show or hide the settings window.
pub const ID_TRAY_TOGGLE_WINDOW: usize = 2001;
/// Tray menu command: restore the most recently hidden window.
pub const ID_TRAY_RESTORE_LAST: usize = 2002;
/// Tray menu command: restore every hidden window.
pub const ID_TRAY_RESTORE_ALL: usize = 2003;
/// Tray menu command: switch launch at login.
pub const ID_TRAY_AUTOSTART: usize = 2004;
/// Tray menu command: quit the tool.
pub const ID_TRAY_EXIT: usize = 2005;
/// `WM_CONTEXTMENU`, as the tray icon reports a context-menu request.
pub const TRAY_CONTEXT_MENU: u32 = 0x007B;
/// `WM_RBUTTONUP` on the tray icon.
pub const TRAY_RIGHT_BUTTON_UP: u32 = 0x0205;
/// `WM_LBUTTONDBLCLK` on the tray icon.
pub const TRAY_LEFT_DOUBLE_CLICK: u32 = 0x0203;
/// `NIN_SELECT`: the tray icon was selected.
pub const TRAY_SELECT: u32 = 0x0400;
/// The `WM_SIZE` parameter of a minimised window (`SIZE_MINIMIZED`).
pub const SIZE_MINIMIZED: u32 = 1;

/// A registered hotkey.
#[derive(Clone, Copy, Debug, PartialEq, Eq, Structural)]
pub enum HotkeyCommand {
    /// Alt+W.
    Hide,
    /// Alt+Q.
    Quit,
}

/// The hotkey that a `WM_HOTKEY` id names.
pub fn hotkey_command(id: i32) -> (r: Option<HotkeyCommand>)
    ensures
        r == if id == HOTKEY_HIDE_ID {
            Some(HotkeyCommand::Hide)
        } else if id == HOTKEY_QUIT_ID {
            Some(HotkeyCommand::Quit)
        } else {
            None::<HotkeyCommand>
        },
{
    if id == HOTKEY_HIDE_ID {
        Some(HotkeyCommand::Hide)
    } else if id == HOTKEY_QUIT_ID {
        Some(HotkeyCommand::Quit)
    } else {
        None
    }
}

/// A command of the tray menu.
#[derive(Clone, Copy, Debug, PartialEq, Eq, Structural)]
pub enum TrayCommand {
    ToggleWindow,
    RestoreLast,
    RestoreAll,
    ToggleAutostart,
    Exit,
}

pub open spec fn spec_tray_command(id: usize) -> Option<TrayCommand> {
    if id == ID_TRAY_TOGGLE_WINDOW {
        Some(TrayCommand::ToggleWindow)
    } else if id == ID_TRAY_RESTORE_LAST {
        Some(TrayCommand::RestoreLast)
    } else if id == ID_TRAY_RESTORE_ALL {
        Some(TrayCommand::RestoreAll)
    } else if id == ID_TRAY_AUTOSTART {
        Some(TrayCommand::ToggleAutostart)
    } else if id == ID_TRAY_EXIT {
        Some(TrayCommand::Exit)
    } else {
        None
    }
}

/// The tray command that a menu selection returned; `None` when the menu
/// was dismissed.
pub fn tray_command(id: usize) -> (r: Option<TrayCommand>)
    ensures
        r == spec_tray_command(id),
{
    if id == ID_TRAY_TOGGLE_WINDOW {
        Some(TrayCommand::ToggleWindow)
    } else if id == ID_TRAY_RESTORE_LAST {
        Some(TrayCommand::RestoreLast)
    } else if id == ID_TRAY_RESTORE_ALL {
        Some(TrayCommand::RestoreAll)
    } else if id == ID_TRAY_AUTOSTART {
        Some(TrayCommand::ToggleAutostart)
    } else if id == ID_TRAY_EXIT {
        Some(TrayCommand::Exit)
    } else {
        None
    }
}

/// What a notification from the tray icon asks for.
#[derive(Clone, Copy, Debug, PartialEq, Eq, Structural)]
pub enum TrayNotification {
    /// Right click or context-menu key: open the menu.
    ShowMenu,
    /// Double click or selection: show or hide the settings window.
    ToggleWindow,
    /// Anything else: ignored.
    Other,
}

/// The meaning of the tray icon's notification `code`.
pub fn tray_notification(code: u32) -> (r: TrayNotification)
    ensures
        r == if code == TRAY_CONTEXT_MENU || code == TRAY_RIGHT_BUTTON_UP {
            TrayNotification::ShowMenu
        } else if code == TRAY_LEFT_DOUBLE_CLICK || code == TRAY_SELECT {
            TrayNotification::ToggleWindow
        } else {
            TrayNotification::Other
        },
{
    if code == TRAY_CONTEXT_MENU || code == TRAY_RIGHT_BUTTON_UP {
        TrayNotification::ShowMenu
    } else if code == TRAY_LEFT_DOUBLE_CLICK || code == TRAY_SELECT {
        TrayNotification::ToggleWindow
    } else {
        TrayNotification::Other
    }
}

/// Whether a `WM_COMMAND` parameter reports a click on the launch-at-login
/// checkbox: its low word is the checkbox's id and its high word the click
/// notification.
pub fn is_autostart_click(wparam: usize) -> (r: bool)
    ensures
        r == (wparam % 0x10000 == ID_CHECK_AUTOSTART && (wparam / 0x10000) % 0x10000
            == BUTTON_CLICKED),
{
    loword(wparam) == ID_CHECK_AUTOSTART && hiword(wparam) == BUTTON_CLICKED
}

/// Whether a `WM_SIZE` parameter reports that the settings window was
/// minimised, in which case it is hidden to the tray.
pub fn hides_on_size(wparam: usize) -> (r: bool)
    ensures
        r == ((wparam as int) % 0x1_0000_0000 == SIZE_MINIMIZED),
{
    let low: u32 = ((wparam as u64) % 0x1_0000_0000) as u32;
    low == SIZE_MINIMIZED
}

/// What the tray menu shows.
pub struct TrayMenu {
    /// The label of the show/hide item.
    pub toggle_label: String,
    pub restore_last_label: String,
    pub restore_all_label: String,
    pub autostart_label: String,
    pub exit_label: String,
    /// Whether the two restore items can be chosen.
    pub restore_enabled: bool,
    /// Whether the launch-at-login item carries a check mark.
    pub autostart_checked: bool,
}

/// The tray menu for a settings window that is or is not visible, with or
/// without hidden windows, and with launch at login on or off.
pub fn tray_menu(settings_visible: bool, has_hidden: bool, autostart_enabled: bool) -> (r: TrayMenu)
    ensures
        r.toggle_label@ == if settings_visible {
            "Hide Settings"@
        } else {
            "Show Settings"@
        },
        r.restore_last_label@ == "Restore Last Hidden Window"@,
        r.restore_all_label@ == "Restore All Hidden Windows"@,
        r.autostart_label@ == "Launch At Login"@,
        r.exit_label@ == "Quit WinMac"@,
        r.restore_enabled == has_hidden,
        r.autostart_checked == autostart_enabled,
{
    let toggle = if settings_visible {
        "Hide Settings"
    } else {
        "Show Settings"
    };
    TrayMenu {
        toggle_label: String::from_str(toggle),
        restore_last_label: String::from_str("Restore Last Hidden Window"),
        restore_all_label: String::from_str("Restore All Hidden Windows"),
        autostart_label: String::from_str("Launch At Login"),
        exit_label: String::from_str("Quit WinMac"),
        restore_enabled: has_hidden,
        autostart_checked: autostart_enabled,
    }
}

/// Whether the startup failure message is shown: when either hotkey could
/// not be registered.
pub fn hotkey_warning_needed(hide_registered: bool, quit_registered: bool) -> (r: bool)
    ensures
        r == !(hide_registered && quit_registered),
{
    !(hide_registered && quit_registered)
}

/// The quit prompt's position while it slides in, and what it shows.
pub struct OverlayMotion {
    pub x: i32,
    pub y: i32,
    pub target_y: i32,
    pub dpi: u32,
    pub title: String,
}

/// The state of the tool apart from its window and font handles.
pub struct AppState {
    pub theme: ThemeMode,
    pub autostart_enabled: bool,
    pub exiting: bool,
    /// Whether the fonts exist, and the DPI they were made for.
    pub fonts_loaded: bool,
    pub font_dpi: u32,
    pub overlay: OverlayMotion,
    pub quit: QuitConfirm,
    pub minimize: MinimizeTracker,
    pub hidden: HiddenWindows,
}

/// The switches of the tool: theme, launch at login and the exit flag.
pub open spec fn same_settings(a: &AppState, b: &AppState) -> bool {
    &&& a.theme == b.theme
    &&& a.autostart_enabled == b.autostart_enabled
    &&& a.exiting == b.exiting
}

/// What is recorded of the fonts.
pub open spec fn same_fonts(a: &AppState, b: &AppState) -> bool {
    &&& a.fonts_loaded == b.fonts_loaded
    &&& a.font_dpi == b.font_dpi
}

/// The quit prompt's position and content.
pub open spec fn same_overlay(a: &OverlayMotion, b: &OverlayMotion) -> bool {
    &&& a.x == b.x
    &&& a.y == b.y
    &&& a.target_y == b.target_y
    &&& a.dpi == b.dpi
    &&& a.title@ == b.title@
}

/// The state of the two shortcuts and the hidden windows.
pub open spec fn same_shortcuts(a: &AppState, b: &AppState) -> bool {
    &&& a.quit == b.quit
    &&& a.minimize == b.minimize
    &&& a.hidden.windows@ == b.hidden.windows@
}

/// Whether the tool is on its way out, so that closing the settings window
/// destroys it rather than hiding it to the tray.
pub fn should_exit(state: &AppState) -> (r: bool)
    ensures
        r == state.exiting,
{
    state.exiting
}

/// Marks the tool as exiting; nothing else changes.
pub fn request_exit(state: &mut AppState)
    ensures
        final(state).exiting,
        final(state).theme == old(state).theme,
        final(state).autostart_enabled == old(state).autostart_enabled,
        same_fonts(&*final(state), &*old(state)),
        same_overlay(&final(state).overlay, &old(state).overlay),
        same_shortcuts(&*final(state), &*old(state)),
{
    state.exiting = true;
}

/// What closing the settings window does.
#[derive(Clone, Copy, Debug, PartialEq, Eq, Structural)]
pub enum CloseAction {
    /// Destroy it, which ends the tool.
    Destroy,
    /// Hide it to the tray.
    Hide,
}

/// Closing the settings window only hides it to the tray, unless the tool
/// is exiting.
pub fn close_action(state: &AppState) -> (r: CloseAction)
    ensures
        r == if state.exiting {
            CloseAction::Destroy
        } else {
            CloseAction::Hide
        },
{
    if should_exit(state) {
        CloseAction::Destroy
    } else {
        CloseAction::Hide
    }
}

/// What showing or hiding the settings window from the tray does.
#[derive(Clone, Copy, Debug, PartialEq, Eq, Structural)]
pub enum VisibilityAction {
    /// Hide it.
    Hide,
    /// Restore it and give it the focus.
    Restore,
}

/// A visible settings window is hidden, a hidden one restored.
pub fn visibility_toggle(visible: bool) -> (r: VisibilityAction)
    ensures
        r == if visible {
            VisibilityAction::Hide
        } else {
            VisibilityAction::Restore
        },
{
    if visible {
        VisibilityAction::Hide
    } else {
        VisibilityAction::Restore
    }
}

impl AppState {
    /// The state at startup, with the detected theme and launch-at-login
    /// setting.
    pub fn new(theme: ThemeMode, autostart_enabled: bool) -> (r: Self)
        ensures
            r.theme == theme,
            r.autostart_enabled == autostart_enabled,
            !r.exiting,
            !r.fonts_loaded,
            r.font_dpi == 0,
            r.overlay.x == 0,
            r.overlay.y == 0,
            r.overlay.target_y == 0,
            r.overlay.dpi == 0,
            r.overlay.title@ == Seq::<char>::empty(),
            r.quit == (QuitConfirm { target: 0, deadline: 0 }),
            r.minimize == cleared_tracker(),
            r.hidden.windows@ == Seq::<isize>::empty(),
    {
        AppState {
            theme,
            autostart_enabled,
            exiting: false,
            fonts_loaded: false,
            font_dpi: 0,
            overlay: OverlayMotion { x: 0, y: 0, target_y: 0, dpi: 0, title: String::new() },
            quit: QuitConfirm::new(),
            minimize: MinimizeTracker::new(),
            hidden: HiddenWindows::new(),
        }
    }

    /// The setting the launch-at-login switch asks for: the opposite of the
    /// current one.
    pub fn autostart_toggle_target(&self) -> (r: bool)
        ensures
            r == !self.autostart_enabled,
    {
        !self.autostart_enabled
    }

    /// Records the outcome of writing (or deleting) the Run entry for
    /// `enabled`: the setting changes only if the registry was changed, and
    /// nothing else changes.
    pub fn record_autostart(&mut self, enabled: bool, applied: bool)
        ensures
            final(self).autostart_enabled == if applied {
                enabled
            } else {
                old(self).autostart_enabled
            },
            final(self).exiting == old(self).exiting,
            final(self).theme == old(self).theme,
            same_fonts(&*final(self), &*old(self)),
            same_overlay(&final(self).overlay, &old(self).overlay),
            same_shortcuts(&*final(self), &*old(self)),
    {
        if applied {
            self.autostart_enabled = enabled;
        }
    }

    /// Records that the fonts were made for `dpi` (raised to at least 96);
    /// nothing else changes.
    pub fn record_fonts(&mut self, dpi: u32)
        ensures
            final(self).fonts_loaded,
            final(self).font_dpi == spec_normalized_dpi(dpi),
            same_settings(&*final(self), &*old(self)),
            same_overlay(&final(self).overlay, &old(self).overlay),
            same_shortcuts(&*final(self), &*old(self)),
    {
        self.fonts_loaded = true;
        self.font_dpi = normalized_dpi(dpi);
    }

    /// Records that the fonts were deleted; nothing else changes.
    pub fn forget_fonts(&mut self)
        ensures
            !final(self).fonts_loaded,
            final(self).font_dpi == old(self).font_dpi,
            same_settings(&*final(self), &*old(self)),
            same_overlay(&final(self).overlay, &old(self).overlay),
            same_shortcuts(&*final(self), &*old(self)),
    {
        self.fonts_loaded = false;
    }

    /// Starts the quit prompt's slide for the window titled `title`: it
    /// appears at its start height and will move up to its resting place.
    /// Nothing outside the prompt changes.
    pub fn begin_overlay(&mut self, placement: OverlayPlacement, title: String, dpi: u32)
        ensures
            final(self).overlay.x == placement.x,
            final(self).overlay.y == placement.start_y,
            final(self).overlay.target_y == placement.target_y,
            final(self).overlay.dpi == dpi,
            final(self).overlay.title@ == title@,
            same_settings(&*final(self), &*old(self)),
            same_fonts(&*final(self), &*old(self)),
            same_shortcuts(&*final(self), &*old(self)),
    {
        self.overlay = OverlayMotion {
            x: placement.x,
            y: placement.start_y,
            target_y: placement.target_y,
            dpi,
            title,
        };
    }

    /// One animation tick of the quit prompt, at the prompt's DPI raised to
    /// at least 96. Only the prompt's height changes.
    pub fn overlay_tick(&mut self) -> (r: SlideStep)
        requires
            slide_step_defined(
                old(self).overlay.y,
                old(self).overlay.target_y,
                spec_normalized_dpi(old(self).overlay.dpi),
            ),
        ensures
            r.y == spec_slide_y(
                old(self).overlay.y,
                old(self).overlay.target_y,
                spec_normalized_dpi(old(self).overlay.dpi),
            ),
            r.finished == (r.y <= old(self).overlay.target_y),
            final(self).overlay.y == r.y,
            final(self).overlay.x == old(self).overlay.x,
            final(self).overlay.target_y == old(self).overlay.target_y,
            final(self).overlay.dpi == old(self).overlay.dpi,
            final(self).overlay.title@ == old(self).overlay.title@,
            same_settings(&*final(self), &*old(self)),
            same_fonts(&*final(self), &*old(self)),
            same_shortcuts(&*final(self), &*old(self)),
    {
        let dpi = normalized_dpi(self.overlay.dpi);
        let step = slide_step(self.overlay.y, self.overlay.target_y, dpi);
        self.overlay.y = step.y;
        step
    }
}

} // verus!
