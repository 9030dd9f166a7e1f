//! What the quit prompt shows, and when its render target must be made
//! anew.
use vstd::prelude::*;
use crate::theme::ThemeMode;

verus! {

/// The colour scheme the quit prompt is drawn in.
#[derive(Clone, Copy, Debug, PartialEq, Eq, Structural)]
pub enum OverlayTheme {
    Light,
    Dark,
}

/// The content of the quit prompt.
pub struct OverlayVisual {
    pub theme: OverlayTheme,
    pub title: String,
    pub subtitle: String,
    pub hint: String,
    pub badge: String,
}

/// The prompt's colour scheme for the system theme.
pub open spec fn spec_overlay_theme_for(theme: ThemeMode) -> OverlayTheme {
    match theme {
        ThemeMode::Light => OverlayTheme::Light,
        ThemeMode::Dark => OverlayTheme::Dark,
    }
}

/// The prompt's colour scheme for the system theme.
pub fn overlay_theme_for(theme: ThemeMode) -> (r: OverlayTheme)
    ensures
        r == spec_overlay_theme_for(theme),
{
    match theme {
        ThemeMode::Light => OverlayTheme::Light,
        ThemeMode::Dark => OverlayTheme::Dark,
    }
}

/// `title`, or `fallback` where `title` is empty.
fn title_or(title: &str, fallback: &str) -> (r: String)
    ensures
        r@ == if title@.len() == 0 {
            fallback@
        } else {
            title@
        },
{
    if title.unicode_len() == 0 {
        String::from_str(fallback)
    } else {
        String::from_str(title)
    }
}

/// The quit prompt for the window titled `overlay_title`, in English.
pub fn quit_prompt_visual(theme: ThemeMode, overlay_title: &str) -> (r: OverlayVisual)
    ensures
        r.theme == spec_overlay_theme_for(theme),
        r.title@ == if overlay_title@.len() == 0 {
            "Current window"@
        } else {
            overlay_title@
        },
        r.subtitle@ == "Press Alt + Q again to close"@,
        r.hint@ == "Press again to quit"@,
        r.badge@ == "WinMac"@,
{
    OverlayVisual {
        theme: overlay_theme_for(theme),
        title: title_or(overlay_title, "Current window"),
        subtitle: String::from_str("Press Alt + Q again to close"),
        hint: String::from_str("Press again to quit"),
        badge: String::from_str("WinMac"),
    }
}

/// The quit prompt for the window titled `overlay_title`, in Chinese.
pub fn quit_prompt_visual_zh(theme: ThemeMode, overlay_title: &str) -> (r: OverlayVisual)
    ensures
        r.theme == spec_overlay_theme_for(theme),
        r.title@ == if overlay_title@.len() == 0 {
            "当前窗口"@
        } else {
            overlay_title@
        },
        r.subtitle@ == "再次按 Alt + Q 关闭当前窗口"@,
        r.hint@ == "再次按下以退出"@,
        r.badge@ == "WinMac Quick Quit"@,
{
    OverlayVisual {
        theme: overlay_theme_for(theme),
        title: title_or(overlay_title, "当前窗口"),
        subtitle: String::from_str("再次按 Alt + Q 关闭当前窗口"),
        hint: String::from_str("再次按下以退出"),
        badge: String::from_str("WinMac Quick Quit"),
    }
}

/// What to do with the render target before drawing.
#[derive(Clone, Copy, Debug, PartialEq, Eq, Structural)]
pub enum TargetAction {
    /// Make a new render target (there is none, or the DPI changed).
    Create,
    /// Resize the existing one to the window's client size.
    Resize,
    /// Draw on the existing one as it is.
    Keep,
}

/// What is known of the quit prompt's render target: whether one exists,
/// and the size and DPI it was made or last resized for.
#[derive(Clone, Copy, Debug, PartialEq, Eq, Structural)]
pub struct RenderTargetCache {
    pub has_target: bool,
    pub width: u32,
    pub height: u32,
    pub dpi: u32,
}

pub open spec fn spec_plan_target(
    cache: RenderTargetCache,
    width: u32,
    height: u32,
    dpi: u32,
) -> TargetAction {
    if !cache.has_target || cache.dpi != dpi {
        TargetAction::Create
    } else if cache.width != width || cache.height != height {
        TargetAction::Resize
    } else {
        TargetAction::Keep
    }
}

impl RenderTargetCache {
    /// No render target yet.
    pub fn new() -> (r: Self)
        ensures
            r == (RenderTargetCache { has_target: false, width: 0, height: 0, dpi: 0 }),
    {
        RenderTargetCache { has_target: false, width: 0, height: 0, dpi: 0 }
    }

    /// Whether the target must be made, resized or can be used as it is for
    /// a client area of `width` by `height` at `dpi`.
    pub fn plan(&self, width: u32, height: u32, dpi: u32) -> (r: TargetAction)
        ensures
            r == spec_plan_target(*self, width, height, dpi),
    {
        if !self.has_target || self.dpi != dpi {
            TargetAction::Create
        } else if self.width != width || self.height != height {
            TargetAction::Resize
        } else {
            TargetAction::Keep
        }
    }

    /// Records a target newly made for `width` by `height` at `dpi`.
    pub fn target_created(&mut self, width: u32, height: u32, dpi: u32)
        ensures
            *final(self) == (RenderTargetCache { has_target: true, width, height, dpi }),
    {
        self.has_target = true;
        self.width = width;
        self.height = height;
        self.dpi = dpi;
    }

    /// Records that the target was resized to `width` by `height`.
    pub fn target_resized(&mut self, width: u32, height: u32)
        ensures
            *final(self) == (RenderTargetCache { width, height, ..*old(self) }),
    {
        self.width = width;
        self.height = height;
    }

    /// Records that drawing failed and the target was dropped; the size and
    /// DPI it had are kept.
    pub fn target_lost(&mut self)
        ensures
            *final(self) == (RenderTargetCache { has_target: false, ..*old(self) }),
    {
        self.has_target = false;
    }

    /// Forgets the target entirely, as after a theme, DPI or size change.
    pub fn discard(&mut self)
        ensures
            *final(self) == (RenderTargetCache { has_target: false, width: 0, height: 0, dpi: 0 }),
    {
        self.has_target = false;
        self.width = 0;
        self.height = 0;
        self.dpi = 0;
    }
}

/// Once a target is made or resized for a size and DPI, drawing again at
/// that size and DPI uses it as it is.
pub proof fn lemma_target_reused(cache: RenderTargetCache, width: u32, height: u32, dpi: u32)
    ensures
        spec_plan_target(
            RenderTargetCache { has_target: true, width, height, dpi },
            width,
            height,
            dpi,
        ) == TargetAction::Keep,
        cache.has_target && cache.dpi == dpi ==> spec_plan_target(
            RenderTargetCache { width, height, ..cache },
            width,
            height,
            dpi,
        ) == TargetAction::Keep,
{
}

/// A discarded or lost target is always made anew.
pub proof fn lemma_lost_target_recreated(cache: RenderTargetCache, width: u32, height: u32, dpi: u32)
    ensures
        spec_plan_target(
            RenderTargetCache { has_target: false, ..cache },
            width,
            height,
            dpi,
        ) == TargetAction::Create,
{
}

} // verus!
