//! The decision logic of a Windows tray tool that brings macOS-style window
//! shortcuts to Windows: Alt+W minimises the active window (and a second
//! press restores it), Alt+Q closes it after a confirming second press.
//! Everything here is pure computation over plain values; the Win32 calls
//! that read the desktop and act on it stay with the caller.

pub mod control;
pub mod desktop;
pub mod dpi;
pub mod geometry;
pub mod overlay;
pub mod text;
pub mod theme;
pub mod tracking;
pub mod wide;
