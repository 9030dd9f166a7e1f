//! The light or dark appearance that follows the system setting.
use vstd::prelude::*;

verus! {

/// Whether apps are shown light or dark.
#[derive(Clone, Copy, Debug, PartialEq, Eq, Structural)]
pub enum ThemeMode {
    Light,
    Dark,
}

impl Default for ThemeMode {
    fn default() -> (r: Self)
        ensures
            r == ThemeMode::Light,
    {
        ThemeMode::Light
    }
}

/// The theme that the `AppsUseLightTheme` registry value selects: dark only
/// when the value could be read and is zero; light otherwise, also when it
/// is missing.
pub open spec fn spec_theme_from_registry(read_ok: bool, apps_use_light_theme: u32) -> ThemeMode {
    if read_ok && apps_use_light_theme == 0 {
        ThemeMode::Dark
    } else {
        ThemeMode::Light
    }
}

/// The theme for the outcome of reading `AppsUseLightTheme`.
pub fn theme_from_registry(read_ok: bool, apps_use_light_theme: u32) -> (r: ThemeMode)
    ensures
        r == spec_theme_from_registry(read_ok, apps_use_light_theme),
{
    if read_ok && apps_use_light_theme == 0 {
        ThemeMode::Dark
    } else {
        ThemeMode::Light
    }
}

/// The value of the immersive-dark-mode window attribute for a theme.
pub fn dark_mode_flag(theme: ThemeMode) -> (r: i32)
    ensures
        r == if theme == ThemeMode::Dark {
            1i32
        } else {
            0i32
        },
{
    match theme {
        ThemeMode::Dark => 1,
        ThemeMode::Light => 0,
    }
}

} // verus!
