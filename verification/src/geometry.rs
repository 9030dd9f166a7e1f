//! Pixel geometry: DPI scaling, centring, the placement of the quit prompt
//! and the full-screen test.
use vstd::prelude::*;

verus! {

/// Width of the quit prompt at 96 DPI.
pub const OVERLAY_WIDTH: i32 = 336;
/// Height of the quit prompt at 96 DPI.
pub const OVERLAY_HEIGHT: i32 = 118;
/// How far below its resting place the quit prompt starts its slide, at 96 DPI.
pub const OVERLAY_LIFT: i32 = 8;
/// Gap kept between the quit prompt and the bottom of the work area, at 96 DPI.
pub const OVERLAY_BOTTOM_MARGIN: i32 = 56;
/// Gap kept between the quit prompt and the top of the work area, at 96 DPI.
pub const OVERLAY_TOP_MARGIN: i32 = 16;
/// Where the centre of the quit prompt sits, in percent of the work-area height.
pub const OVERLAY_VERTICAL_ANCHOR_PERCENT: i32 = 74;
/// Distance the quit prompt moves up per animation tick, at 96 DPI.
pub const OVERLAY_SLIDE_STEP: i32 = 2;
/// Width of the settings window at 96 DPI.
pub const WINDOW_WIDTH: i32 = 420;
/// Height of the settings window at 96 DPI.
pub const WINDOW_HEIGHT: i32 = 250;
/// Tolerance, in pixels, of the full-screen test.
pub const FULLSCREEN_TOLERANCE: i32 = 2;

/// A rectangle in screen pixels, edges as the Win32 `RECT` holds them.
#[derive(Clone, Copy, Debug, PartialEq, Eq, Structural)]
pub struct Rect {
    pub left: i32,
    pub top: i32,
    pub right: i32,
    pub bottom: i32,
}

/// A window's position and size.
#[derive(Clone, Copy, Debug, PartialEq, Eq, Structural)]
pub struct Frame {
    pub x: i32,
    pub y: i32,
    pub width: i32,
    pub height: i32,
}

/// Where the quit prompt goes: its size, its resting place and the height it
/// slides up from.
#[derive(Clone, Copy, Debug, PartialEq, Eq, Structural)]
pub struct OverlayPlacement {
    pub x: i32,
    pub target_y: i32,
    pub start_y: i32,
    pub width: i32,
    pub height: i32,
}

/// One tick of the quit prompt's slide: the new height and whether the
/// slide has come to rest.
#[derive(Clone, Copy, Debug, PartialEq, Eq, Structural)]
pub struct SlideStep {
    pub y: i32,
    pub finished: bool,
}

pub open spec fn in_i32(x: int) -> bool {
    i32::MIN <= x <= i32::MAX
}

/// Integer division rounding toward zero, as Rust's `/` on signed integers.
pub open spec fn div_trunc(a: int, b: int) -> int {
    if a >= 0 {
        a / b
    } else {
        -((-a) / b)
    }
}

pub open spec fn abs(x: int) -> int {
    if x < 0 {
        -x
    } else {
        x
    }
}

pub open spec fn max_int(a: int, b: int) -> int {
    if a >= b {
        a
    } else {
        b
    }
}

/// `v` clamped into `[lo, hi]`, with `lo <= hi`.
pub open spec fn clamp_int(v: int, lo: int, hi: int) -> int {
    if v < lo {
        lo
    } else if v > hi {
        hi
    } else {
        v
    }
}

/// The pixel length `value` (given at 96 DPI) at `dpi`, rounded half up and
/// wrapped into an `i32` as the cast does.
pub open spec fn spec_scale_px(value: int, dpi: int) -> i32 {
    div_trunc(value * dpi + 48, 96) as i32
}

/// Scales `value`, a length at 96 DPI, to `dpi`: `(value * dpi + 48) / 96`
/// computed in 64 bits, then cast to `i32`.
pub fn scale_px(value: i32, dpi: u32) -> (r: i32)
    ensures
        r == spec_scale_px(value as int, dpi as int),
{
    let v: i64 = value as i64;
    let d: i64 = dpi as i64;
    assert(-0x8000_0000_0000_0000 < v * d < 0x7fff_ffff_ffff_0000) by (nonlinear_arith)
        requires
            -0x8000_0000 <= v < 0x8000_0000,
            0 <= d < 0x1_0000_0000,
    ;
    let wide: i64 = v * d + 48;
    #[verifier::truncate]
    ((wide / 96) as i32)
}

/// Scaling to 96 DPI leaves a non-negative length unchanged.
pub proof fn lemma_scale_px_identity_at_96(value: i32)
    requires
        value >= 0,
    ensures
        spec_scale_px(value as int, 96) == value,
{
    assert((value * 96 + 48) / 96 == value) by (nonlinear_arith)
        requires
            value >= 0,
    ;
}

/// Scaling rounds to the nearest pixel, halves up: for a non-negative length
/// whose scaled size fits in `i32`, the result `r` satisfies
/// `96 * r - 48 <= value * dpi < 96 * r + 48`, at every DPI.
pub proof fn lemma_scale_px_rounds_to_nearest(value: i32, dpi: u32)
    requires
        value >= 0,
        (value * dpi + 48) / 96 <= i32::MAX,
    ensures
        96 * spec_scale_px(value as int, dpi as int) - 48 <= value * dpi,
        value * dpi < 96 * spec_scale_px(value as int, dpi as int) + 48,
{
    let a = value * dpi + 48;
    assert(a >= 48) by (nonlinear_arith)
        requires
            value >= 0,
            dpi >= 0,
            a == value * dpi + 48,
    ;
    let q = a / 96;
    assert(96 * q <= a < 96 * q + 96) by (nonlinear_arith)
        requires
            a >= 0,
            q == a / 96,
    ;
    assert(0 <= q <= i32::MAX);
    assert(spec_scale_px(value as int, dpi as int) == q);
}

/// For a positive length, a higher DPI never gives a smaller size, and 25%
/// more DPI gives a strictly larger one (as long as the sizes fit in `i32`).
pub proof fn lemma_scale_px_grows_with_dpi(value: i32, dpi1: u32, dpi2: u32)
    requires
        value > 0,
        dpi1 <= dpi2,
        (value * dpi2 + 48) / 96 <= i32::MAX,
    ensures
        spec_scale_px(value as int, dpi1 as int) <= spec_scale_px(value as int, dpi2 as int),
        value * (dpi2 - dpi1) >= 96 ==> spec_scale_px(value as int, dpi1 as int) < spec_scale_px(
            value as int,
            dpi2 as int,
        ),
{
    assert(value * dpi1 <= value * dpi2) by (nonlinear_arith)
        requires
            value > 0,
            dpi1 <= dpi2,
    ;
    assert(value * dpi2 - value * dpi1 == value * (dpi2 - dpi1)) by (nonlinear_arith);
    lemma_scale_px_rounds_to_nearest(value, dpi2);
    assert((value * dpi1 + 48) / 96 <= (value * dpi2 + 48) / 96) by (nonlinear_arith)
        requires
            value * dpi1 <= value * dpi2,
            value * dpi1 >= 0,
    ;
    assert(value * dpi1 >= 0) by (nonlinear_arith)
        requires
            value > 0,
            dpi1 >= 0,
    ;
    lemma_scale_px_rounds_to_nearest(value, dpi1);
}

/// The left edge that centres a window of width `width` on a screen of
/// width `screen_width`.
pub fn centered_x(screen_width: i32, width: i32) -> (r: i32)
    requires
        in_i32(screen_width - width),
    ensures
        r == div_trunc(screen_width - width, 2),
{
    (screen_width - width) / 2
}

/// The top edge that centres a window of height `height` on a screen of
/// height `screen_height`.
pub fn centered_y(screen_height: i32, height: i32) -> (r: i32)
    requires
        in_i32(screen_height - height),
    ensures
        r == div_trunc(screen_height - height, 2),
{
    (screen_height - height) / 2
}

/// The settings window at `dpi`, centred on a screen of the given size.
pub open spec fn spec_main_window_frame(dpi: u32, screen_width: i32, screen_height: i32) -> Frame {
    let w = spec_scale_px(WINDOW_WIDTH as int, dpi as int);
    let h = spec_scale_px(WINDOW_HEIGHT as int, dpi as int);
    Frame {
        x: div_trunc(screen_width - w, 2) as i32,
        y: div_trunc(screen_height - h, 2) as i32,
        width: w,
        height: h,
    }
}

/// The frame of the settings window: its size scaled to `dpi`, centred on
/// the screen.
pub fn main_window_frame(dpi: u32, screen_width: i32, screen_height: i32) -> (r: Frame)
    requires
        in_i32(screen_width - spec_scale_px(WINDOW_WIDTH as int, dpi as int)),
        in_i32(screen_height - spec_scale_px(WINDOW_HEIGHT as int, dpi as int)),
    ensures
        r == spec_main_window_frame(dpi, screen_width, screen_height),
{
    let width = scale_px(WINDOW_WIDTH, dpi);
    let height = scale_px(WINDOW_HEIGHT, dpi);
    Frame {
        x: centered_x(screen_width, width),
        y: centered_y(screen_height, height),
        width,
        height,
    }
}

/// The frame of the launch-at-login checkbox inside the settings window.
pub fn checkbox_frame(dpi: u32) -> (r: Frame)
    ensures
        r == (Frame {
            x: spec_scale_px(24, dpi as int),
            y: spec_scale_px(176, dpi as int),
            width: spec_scale_px(180, dpi as int),
            height: spec_scale_px(28, dpi as int),
        }),
{
    Frame {
        x: scale_px(24, dpi),
        y: scale_px(176, dpi),
        width: scale_px(180, dpi),
        height: scale_px(28, dpi),
    }
}

/// The arithmetic of `compute_overlay_x` stays within `i32`.
pub open spec fn overlay_x_defined(work: Rect, overlay_width: i32) -> bool {
    &&& in_i32(work.right - work.left)
    &&& in_i32(work.right - work.left - overlay_width)
    &&& in_i32(work.left + div_trunc(work.right - work.left - overlay_width, 2))
}

pub open spec fn spec_overlay_x(work: Rect, overlay_width: i32) -> int {
    work.left + div_trunc(work.right - work.left - overlay_width, 2)
}

/// The left edge that centres the quit prompt in the work area.
pub fn compute_overlay_x(work: Rect, overlay_width: i32) -> (r: i32)
    requires
        overlay_x_defined(work, overlay_width),
    ensures
        r == spec_overlay_x(work, overlay_width),
{
    work.left + ((work.right - work.left - overlay_width) / 2)
}

/// The quit prompt is centred in the work area: when it fits, the gap on its
/// left equals the gap on its right, or is one pixel smaller when the spare
/// width is odd.
pub proof fn lemma_overlay_x_centred(work: Rect, overlay_width: i32)
    requires
        work.right - work.left - overlay_width >= 0,
    ensures
        ({
            let x = spec_overlay_x(work, overlay_width);
            let left_gap = x - work.left;
            let right_gap = work.right - (x + overlay_width);
            right_gap - left_gap == (work.right - work.left - overlay_width) % 2
        }),
{
}

pub open spec fn work_height(work: Rect) -> int {
    max_int(work.bottom - work.top, 0)
}

pub open spec fn preferred_center(work: Rect) -> int {
    work.top + (work_height(work) * OVERLAY_VERTICAL_ANCHOR_PERCENT) / 100
}

pub open spec fn preferred_y(work: Rect, overlay_height: i32) -> int {
    preferred_center(work) - div_trunc(overlay_height as int, 2)
}

pub open spec fn min_overlay_y(work: Rect, dpi: u32) -> int {
    work.top + spec_scale_px(OVERLAY_TOP_MARGIN as int, dpi as int)
}

pub open spec fn max_overlay_y(work: Rect, overlay_height: i32, dpi: u32) -> int {
    work.bottom - overlay_height - spec_scale_px(OVERLAY_BOTTOM_MARGIN as int, dpi as int)
}

/// The arithmetic of `compute_overlay_target_y` stays within `i32`.
pub open spec fn overlay_target_y_defined(work: Rect, overlay_height: i32, dpi: u32) -> bool {
    &&& in_i32(work.bottom - work.top)
    &&& in_i32(work_height(work) * OVERLAY_VERTICAL_ANCHOR_PERCENT)
    &&& in_i32(preferred_center(work))
    &&& in_i32(preferred_y(work, overlay_height))
    &&& in_i32(min_overlay_y(work, dpi))
    &&& in_i32(work.bottom - overlay_height)
    &&& in_i32(max_overlay_y(work, overlay_height, dpi))
}

/// The resting height of the quit prompt: its centre at 74% of the work
/// area's height, clamped between the top margin and the bottom margin (the
/// top margin winning where they cross).
pub open spec fn spec_overlay_target_y(work: Rect, overlay_height: i32, dpi: u32) -> int {
    let lo = min_overlay_y(work, dpi);
    clamp_int(
        preferred_y(work, overlay_height),
        lo,
        max_int(max_overlay_y(work, overlay_height, dpi), lo),
    )
}

/// The resting height of the quit prompt in the work area `work`.
pub fn compute_overlay_target_y(work: Rect, overlay_height: i32, dpi: u32) -> (r: i32)
    requires
        overlay_target_y_defined(work, overlay_height, dpi),
    ensures
        r == spec_overlay_target_y(work, overlay_height, dpi),
        min_overlay_y(work, dpi) <= r,
        r <= max_int(max_overlay_y(work, overlay_height, dpi), min_overlay_y(work, dpi)),
{
    let span = work.bottom - work.top;
    let height = if span > 0 {
        span
    } else {
        0
    };
    let center = work.top + ((height * OVERLAY_VERTICAL_ANCHOR_PERCENT) / 100);
    let preferred = center - (overlay_height / 2);
    let min_y = work.top + scale_px(OVERLAY_TOP_MARGIN, dpi);
    let max_y = work.bottom - overlay_height - scale_px(OVERLAY_BOTTOM_MARGIN, dpi);
    let upper = if max_y > min_y {
        max_y
    } else {
        min_y
    };
    if preferred < min_y {
        min_y
    } else if preferred > upper {
        upper
    } else {
        preferred
    }
}

/// The work area moved down (or up) by `k` pixels.
pub open spec fn shifted(work: Rect, k: int) -> Rect {
    Rect { left: work.left, top: (work.top + k) as i32, right: work.right, bottom: (work.bottom + k) as i32 }
}

/// The quit prompt's resting place follows its monitor: moving the work area
/// vertically by `k` moves the resting height by exactly `k`.
pub proof fn lemma_overlay_target_y_translates(work: Rect, overlay_height: i32, dpi: u32, k: int)
    requires
        in_i32(work.top + k),
        in_i32(work.bottom + k),
    ensures
        spec_overlay_target_y(shifted(work, k), overlay_height, dpi) == spec_overlay_target_y(
            work,
            overlay_height,
            dpi,
        ) + k,
{
}

/// Where the margins leave room for it, the centre of the quit prompt sits
/// 74% of the way down the work area, counted from the work area's top.
pub proof fn lemma_overlay_center_at_74_percent(work: Rect, overlay_height: i32, dpi: u32)
    requires
        work.bottom >= work.top,
        ({
            let y = work.top + ((work.bottom - work.top) * 74) / 100 - div_trunc(
                overlay_height as int,
                2,
            );
            &&& min_overlay_y(work, dpi) <= y
            &&& y <= max_overlay_y(work, overlay_height, dpi)
        }),
    ensures
        spec_overlay_target_y(work, overlay_height, dpi) == work.top + ((work.bottom - work.top)
            * 74) / 100 - div_trunc(overlay_height as int, 2),
{
}

/// All the arithmetic of `overlay_placement` stays within `i32`.
pub open spec fn overlay_placement_defined(work: Rect, dpi: u32) -> bool {
    let w = spec_scale_px(OVERLAY_WIDTH as int, dpi as int);
    let h = spec_scale_px(OVERLAY_HEIGHT as int, dpi as int);
    &&& overlay_x_defined(work, w)
    &&& overlay_target_y_defined(work, h, dpi)
    &&& in_i32(spec_overlay_target_y(work, h, dpi) + spec_scale_px(OVERLAY_LIFT as int, dpi as int))
}

pub open spec fn spec_overlay_placement(work: Rect, dpi: u32) -> OverlayPlacement {
    let w = spec_scale_px(OVERLAY_WIDTH as int, dpi as int);
    let h = spec_scale_px(OVERLAY_HEIGHT as int, dpi as int);
    let y = spec_overlay_target_y(work, h, dpi);
    OverlayPlacement {
        x: spec_overlay_x(work, w) as i32,
        target_y: y as i32,
        start_y: (y + spec_scale_px(OVERLAY_LIFT as int, dpi as int)) as i32,
        width: w,
        height: h,
    }
}

/// Where the quit prompt is shown in the work area `work` at `dpi`: centred
/// horizontally, resting at its target height and starting a few pixels lower.
pub fn overlay_placement(work: Rect, dpi: u32) -> (r: OverlayPlacement)
    requires
        overlay_placement_defined(work, dpi),
    ensures
        r == spec_overlay_placement(work, dpi),
{
    let width = scale_px(OVERLAY_WIDTH, dpi);
    let height = scale_px(OVERLAY_HEIGHT, dpi);
    let x = compute_overlay_x(work, width);
    let target_y = compute_overlay_target_y(work, height, dpi);
    let lift = scale_px(OVERLAY_LIFT, dpi);
    OverlayPlacement { x, target_y, start_y: target_y + lift, width, height }
}

fn fits_i32(x: i64) -> (r: bool)
    ensures
        r == in_i32(x as int),
{
    -0x8000_0000 <= x && x <= 0x7fff_ffff
}

/// `overlay_placement` for a caller that cannot vouch for the arithmetic:
/// `None` exactly where it would leave `i32`.
pub fn checked_overlay_placement(work: Rect, dpi: u32) -> (r: Option<OverlayPlacement>)
    ensures
        r is Some <==> overlay_placement_defined(work, dpi),
        r matches Some(p) ==> p == spec_overlay_placement(work, dpi),
{
    let width = scale_px(OVERLAY_WIDTH, dpi) as i64;
    let height = scale_px(OVERLAY_HEIGHT, dpi);
    let left = work.left as i64;
    let top = work.top as i64;
    let right = work.right as i64;
    let bottom = work.bottom as i64;
    let span_x = right - left;
    if !fits_i32(span_x) || !fits_i32(span_x - width) || !fits_i32(left + (span_x - width) / 2) {
        return None;
    }
    let span_y = bottom - top;
    if !fits_i32(span_y) {
        return None;
    }
    let wh: i64 = if span_y > 0 {
        span_y
    } else {
        0
    };
    if !fits_i32(wh * 74) {
        return None;
    }
    let center = top + (wh * 74) / 100;
    if !fits_i32(center) || !fits_i32(center - (height as i64) / 2) {
        return None;
    }
    let min_y = top + scale_px(OVERLAY_TOP_MARGIN, dpi) as i64;
    let bottom_less = bottom - height as i64;
    if !fits_i32(min_y) || !fits_i32(bottom_less) {
        return None;
    }
    let max_y = bottom_less - scale_px(OVERLAY_BOTTOM_MARGIN, dpi) as i64;
    if !fits_i32(max_y) {
        return None;
    }
    let h = height;
    let target = compute_overlay_target_y(work, h, dpi);
    if !fits_i32(target as i64 + scale_px(OVERLAY_LIFT, dpi) as i64) {
        return None;
    }
    Some(overlay_placement(work, dpi))
}

/// The arithmetic of one slide tick stays within `i32`.
pub open spec fn slide_step_defined(y: i32, target_y: i32, dpi: u32) -> bool {
    y > target_y ==> in_i32(y - spec_scale_px(OVERLAY_SLIDE_STEP as int, dpi as int))
}

pub open spec fn spec_slide_y(y: i32, target_y: i32, dpi: u32) -> int {
    if y > target_y {
        max_int(y - spec_scale_px(OVERLAY_SLIDE_STEP as int, dpi as int), target_y as int)
    } else {
        y as int
    }
}

/// One animation tick of the quit prompt: while it is below its resting
/// place it moves up by the scaled step, never past the resting place; the
/// slide is finished once it has reached it.
pub fn slide_step(y: i32, target_y: i32, dpi: u32) -> (r: SlideStep)
    requires
        slide_step_defined(y, target_y, dpi),
    ensures
        r.y == spec_slide_y(y, target_y, dpi),
        r.finished == (r.y <= target_y),
{
    let new_y = if y > target_y {
        let moved = y - scale_px(OVERLAY_SLIDE_STEP, dpi);
        if moved > target_y {
            moved
        } else {
            target_y
        }
    } else {
        y
    };
    SlideStep { y: new_y, finished: new_y <= target_y }
}

/// A slide tick never moves the prompt down, never moves it above its
/// resting place once it is at or below it, and at 96 DPI or more always
/// makes progress while the prompt is still below its resting place.
pub proof fn lemma_slide_progress(y: i32, target_y: i32, dpi: u32)
    requires
        slide_step_defined(y, target_y, dpi),
        y >= target_y,
    ensures
        target_y <= spec_slide_y(y, target_y, dpi) <= y,
        dpi >= 96 && y > target_y ==> spec_slide_y(y, target_y, dpi) < y,
{
    if dpi >= 96 {
        assert(2 * dpi + 48 >= 240);
        assert((2 * dpi + 48) / 96 >= 2);
    }
    assert((2 * dpi + 48) / 96 <= (2 * 0x1_0000_0000 + 48) / 96);
}

/// `a - b` can be taken and its absolute value formed in `i32`.
pub open spec fn abs_diff_defined(a: i32, b: i32) -> bool {
    i32::MIN < a - b <= i32::MAX
}

pub open spec fn near(a: i32, b: i32, tolerance: i32) -> bool {
    abs(a - b) <= tolerance
}

/// The edges that `rect_covers_monitor` compares, in the order it compares
/// them (stopping at the first that is too far), can be subtracted in `i32`.
pub open spec fn covers_defined(window_rect: Rect, monitor_rect: Rect, tolerance: i32) -> bool {
    &&& abs_diff_defined(window_rect.left, monitor_rect.left)
    &&& near(window_rect.left, monitor_rect.left, tolerance) ==> {
        &&& abs_diff_defined(window_rect.top, monitor_rect.top)
        &&& near(window_rect.top, monitor_rect.top, tolerance) ==> {
            &&& abs_diff_defined(window_rect.right, monitor_rect.right)
            &&& near(window_rect.right, monitor_rect.right, tolerance) ==> abs_diff_defined(
                window_rect.bottom,
                monitor_rect.bottom,
            )
        }
    }
}

pub open spec fn spec_covers(window_rect: Rect, monitor_rect: Rect, tolerance: i32) -> bool {
    &&& near(window_rect.left, monitor_rect.left, tolerance)
    &&& near(window_rect.top, monitor_rect.top, tolerance)
    &&& near(window_rect.right, monitor_rect.right, tolerance)
    &&& near(window_rect.bottom, monitor_rect.bottom, tolerance)
}

fn abs_diff(a: i32, b: i32) -> (r: i32)
    requires
        abs_diff_defined(a, b),
    ensures
        r == abs(a - b),
{
    let d = a - b;
    if d < 0 {
        -d
    } else {
        d
    }
}

/// Whether a window's rectangle matches its monitor's on every edge within
/// `tolerance` pixels: the test for a full-screen window.
pub fn rect_covers_monitor(window_rect: Rect, monitor_rect: Rect, tolerance: i32) -> (r: bool)
    requires
        covers_defined(window_rect, monitor_rect, tolerance),
    ensures
        r == spec_covers(window_rect, monitor_rect, tolerance),
{
    abs_diff(window_rect.left, monitor_rect.left) <= tolerance && abs_diff(
        window_rect.top,
        monitor_rect.top,
    ) <= tolerance && abs_diff(window_rect.right, monitor_rect.right) <= tolerance && abs_diff(
        window_rect.bottom,
        monitor_rect.bottom,
    ) <= tolerance
}

/// The full-screen test compares all four edges: it holds exactly when
/// every edge of the window is within `tolerance` of the monitor's, so an
/// edge further off than that makes it fail.
pub proof fn lemma_covers_needs_every_edge(window_rect: Rect, monitor_rect: Rect, tolerance: i32)
    ensures
        spec_covers(window_rect, monitor_rect, tolerance) <==> ({
            &&& -tolerance <= window_rect.left - monitor_rect.left <= tolerance
            &&& -tolerance <= window_rect.top - monitor_rect.top <= tolerance
            &&& -tolerance <= window_rect.right - monitor_rect.right <= tolerance
            &&& -tolerance <= window_rect.bottom - monitor_rect.bottom <= tolerance
        }),
{
}

/// Every rectangle covers itself, for any non-negative tolerance.
pub proof fn lemma_covers_reflexive(rect: Rect, tolerance: i32)
    requires
        tolerance >= 0,
    ensures
        covers_defined(rect, rect, tolerance),
        spec_covers(rect, rect, tolerance),
{
}

/// The client size a render target is made with: each side at least one
/// pixel.
pub open spec fn spec_target_extent(client: Rect) -> (u32, u32) {
    (
        max_int(client.right - client.left, 1) as u32,
        max_int(client.bottom - client.top, 1) as u32,
    )
}

/// The size of the render target for a window whose client area is
/// `client`: width and height, each at least one pixel.
pub fn render_target_extent(client: Rect) -> (r: (u32, u32))
    requires
        in_i32(client.right - client.left),
        in_i32(client.bottom - client.top),
    ensures
        r == spec_target_extent(client),
{
    let w = client.right - client.left;
    let h = client.bottom - client.top;
    let width: u32 = if w > 1 {
        w as u32
    } else {
        1
    };
    let height: u32 = if h > 1 {
        h as u32
    } else {
        1
    };
    (width, height)
}

} // verus!
