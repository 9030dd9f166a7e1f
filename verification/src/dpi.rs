//! Screen resolution: the DPI the tool draws at and the font sizes that
//! follow from it.
use vstd::prelude::*;
use crate::geometry::{scale_px, spec_scale_px};

verus! {

/// The lowest DPI the tool draws at: the 100% scale of Windows.
pub const BASE_DPI: u32 = 96;

pub open spec fn spec_normalized_dpi(dpi: u32) -> u32 {
    if dpi >= BASE_DPI {
        dpi
    } else {
        BASE_DPI
    }
}

/// `dpi`, raised to at least 96.
pub fn normalized_dpi(dpi: u32) -> (r: u32)
    ensures
        r == spec_normalized_dpi(dpi),
{
    if dpi >= BASE_DPI {
        dpi
    } else {
        BASE_DPI
    }
}

/// The DPI the tool uses for the whole system, from the value the system
/// reports.
pub fn current_system_dpi(reported: u32) -> (r: u32)
    ensures
        r == spec_normalized_dpi(reported),
{
    normalized_dpi(reported)
}

/// The DPI the tool uses for a window: the window's own DPI, or the
/// system's where the window reports none (zero); at least 96 either way.
pub fn current_dpi_for_window(window_dpi: u32, system_dpi: u32) -> (r: u32)
    ensures
        r == if window_dpi == 0 {
            spec_normalized_dpi(system_dpi)
        } else {
            spec_normalized_dpi(window_dpi)
        },
        r >= BASE_DPI,
{
    if window_dpi == 0 {
        current_system_dpi(system_dpi)
    } else {
        normalized_dpi(window_dpi)
    }
}

/// The heights of the tool's three fonts at one DPI.
#[derive(Clone, Copy, Debug, PartialEq, Eq, Structural)]
pub struct FontHeights {
    pub title: i32,
    pub body: i32,
    pub overlay: i32,
}

/// The font heights at `dpi`: 26, 18 and 20 pixels at 96 DPI.
pub fn font_heights(dpi: u32) -> (r: FontHeights)
    ensures
        r == (FontHeights {
            title: spec_scale_px(26, dpi as int),
            body: spec_scale_px(18, dpi as int),
            overlay: spec_scale_px(20, dpi as int),
        }),
{
    FontHeights { title: scale_px(26, dpi), body: scale_px(18, dpi), overlay: scale_px(20, dpi) }
}

/// Whether the fonts must be made anew for a window at `dpi`: unless they
/// exist and were made for the same (normalised) DPI.
pub fn fonts_need_rebuild(fonts_loaded: bool, font_dpi: u32, dpi: u32) -> (r: bool)
    ensures
        r == !(fonts_loaded && font_dpi == spec_normalized_dpi(dpi)),
{
    let dpi = normalized_dpi(dpi);
    !(fonts_loaded && font_dpi == dpi)
}

} // verus!
