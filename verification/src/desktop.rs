//! Reading the desktop: which window is in front, whether the shortcuts may
//! act on it, and whether it is full screen.
use vstd::prelude::*;
use crate::geometry::{
    abs_diff_defined,
    covers_defined,
    near,
    rect_covers_monitor,
    spec_covers,
    Rect,
    FULLSCREEN_TOLERANCE,
};
use crate::text::{is_manageable_window, spec_is_manageable};
use crate::wide::{decode_utf16_lossy, lemma_decode_encode, spec_decode_lossy, utf16_encode};

verus! {

/// The top-level window of the foreground window `foreground`, given what
/// the system reports as its root ancestor (zero if it reports none).
pub fn foreground_root(foreground: isize, root_ancestor: isize) -> (r: isize)
    ensures
        r == if foreground == 0 {
            0
        } else if root_ancestor == 0 {
            foreground
        } else {
            root_ancestor
        },
{
    if foreground == 0 {
        return 0;
    }
    if root_ancestor == 0 {
        foreground
    } else {
        root_ancestor
    }
}

/// The window the shortcuts act on, of a root window `root` that does or
/// does not exist, with class name `class_name`.
pub open spec fn spec_manageable_window(
    root: isize,
    exists: bool,
    class_name: Seq<char>,
    title_len: i32,
    visible: bool,
) -> Option<isize> {
    if root != 0 && exists && spec_is_manageable(root, class_name, title_len, visible) {
        Some(root)
    } else {
        None
    }
}

/// The foreground window the shortcuts act on: the root window `root` if it
/// exists and may be managed, given the UTF-16 units of its class name, its
/// title length and its visibility.
pub fn manageable_window(
    root: isize,
    exists: bool,
    class_units: &[u16],
    title_len: i32,
    visible: bool,
) -> (r: Option<isize>)
    ensures
        r == spec_manageable_window(
            root,
            exists,
            spec_decode_lossy(class_units@),
            title_len,
            visible,
        ),
{
    if root == 0 || !exists {
        return None;
    }
    let class_name = decode_utf16_lossy(class_units);
    if !is_manageable_window(root, class_name.as_str(), title_len, visible) {
        return None;
    }
    Some(root)
}

/// Only the taskbar and the desktop are excluded: an existing, non-null
/// window whose class name (given as its UTF-16 encoding) is none of
/// `Shell_TrayWnd`, `Progman` and `WorkerW` is acted on whenever it is
/// titled or visible; a window of one of those three classes never is.
pub proof fn lemma_only_shell_classes_excluded(
    root: isize,
    class_name: Seq<char>,
    title_len: i32,
    visible: bool,
)
    requires
        root != 0,
    ensures
        class_name != "Shell_TrayWnd"@ && class_name != "Progman"@ && class_name != "WorkerW"@
            && (title_len != 0 || visible) ==> spec_manageable_window(
            root,
            true,
            spec_decode_lossy(utf16_encode(class_name)),
            title_len,
            visible,
        ) == Some(root),
        class_name == "Shell_TrayWnd"@ || class_name == "Progman"@ || class_name == "WorkerW"@
            ==> spec_manageable_window(
            root,
            true,
            spec_decode_lossy(utf16_encode(class_name)),
            title_len,
            visible,
        ) is None,
        title_len == 0 && !visible ==> spec_manageable_window(
            root,
            true,
            spec_decode_lossy(utf16_encode(class_name)),
            title_len,
            visible,
        ) is None,
{
    lemma_decode_encode(class_name);
}

/// The rectangles of the full-screen test can be compared.
pub open spec fn fullscreen_defined(window_rect: Option<Rect>, monitor_rect: Option<Rect>) -> bool {
    window_rect is Some && monitor_rect is Some ==> covers_defined(
        window_rect->0,
        monitor_rect->0,
        FULLSCREEN_TOLERANCE,
    )
}

/// Whether a window is full screen, given its rectangle and its monitor's
/// (each `None` where the system could not report it): both known and
/// matching within two pixels on every edge.
pub fn window_is_fullscreen(window_rect: Option<Rect>, monitor_rect: Option<Rect>) -> (r: bool)
    requires
        fullscreen_defined(window_rect, monitor_rect),
    ensures
        r == (window_rect is Some && monitor_rect is Some && spec_covers(
            window_rect->0,
            monitor_rect->0,
            FULLSCREEN_TOLERANCE,
        )),
{
    match (window_rect, monitor_rect) {
        (Some(w), Some(m)) => rect_covers_monitor(w, m, FULLSCREEN_TOLERANCE),
        _ => false,
    }
}

fn diff_fits(a: i32, b: i32) -> (r: bool)
    ensures
        r == abs_diff_defined(a, b),
{
    let d = a as i64 - b as i64;
    -0x8000_0000 < d && d <= 0x7fff_ffff
}

fn near_enough(a: i32, b: i32) -> (r: bool)
    ensures
        r == near(a, b, FULLSCREEN_TOLERANCE),
{
    let d = a as i64 - b as i64;
    -2 <= d && d <= 2
}

/// `window_is_fullscreen` for a caller that cannot vouch for the
/// arithmetic: `None` exactly where the comparison would overflow.
pub fn checked_window_is_fullscreen(window_rect: Option<Rect>, monitor_rect: Option<Rect>) -> (r:
    Option<bool>)
    ensures
        r is Some <==> fullscreen_defined(window_rect, monitor_rect),
        r matches Some(b) ==> b == (window_rect is Some && monitor_rect is Some && spec_covers(
            window_rect->0,
            monitor_rect->0,
            FULLSCREEN_TOLERANCE,
        )),
{
    match (window_rect, monitor_rect) {
        (Some(w), Some(m)) => {
            if !diff_fits(w.left, m.left) {
                return None;
            }
            if near_enough(w.left, m.left) {
                if !diff_fits(w.top, m.top) {
                    return None;
                }
                if near_enough(w.top, m.top) {
                    if !diff_fits(w.right, m.right) {
                        return None;
                    }
                    if near_enough(w.right, m.right) && !diff_fits(w.bottom, m.bottom) {
                        return None;
                    }
                }
            }
            Some(window_is_fullscreen(window_rect, monitor_rect))
        },
        _ => Some(false),
    }
}

} // verus!
