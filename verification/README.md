# winmac

A Windows tray tool that brings two macOS-style window shortcuts to Windows:
Alt+W minimises the active window (a second press restores it while the
window that took the focus still has it), and Alt+Q closes the active window
after a confirming second press within 1.6 seconds. Both are ignored while a
full-screen window is in front.

- `src/` is the verified library: every decision the tool makes, written as
  functions over plain values with Verus contracts (`tracking` for the two
  shortcuts, `geometry` for DPI scaling and the quit prompt's placement,
  `text` and `wide` for labels and UTF-16, `desktop`, `dpi`, `theme`,
  `overlay` and `control` for the rest).
- `app/` is the Win32 program around it: window procedures, the tray icon,
  the registry, and the Direct2D drawing of the quit prompt.
- `tests/` runs the library on concrete values.
