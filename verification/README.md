# quickspace

Fast workspace navigation for macOS: hotkeys switch to the adjacent desktop
(Alt+H, Alt+L), toggle Mission Control (Alt+E) and cycle windows (Alt+Tab),
and the menu bar shows the number of the desktop under the cursor.

- `src/` is the library, verified with Verus. It holds the decisions the
  helper makes on values read from the window server: the display and
  desktop under the cursor (`workspace_switcher`), the synthetic gesture
  events and pointer scripts to post (`gestures`), how dictionary values read
  from Core Foundation are read and shown (`cf_utils`), which windows are listed and
  which one to focus (`window_manager`, `focus`), and how the hotkey and
  cursor threads react (`controls`). `text` writes integers in decimal.
- `app/` is the program around it: the Core Graphics, Core Foundation and
  accessibility calls, the tray icon, the hotkey registration and the two
  background threads. It reads plain values, hands them to the library and
  carries out what comes back; the reading itself (which system call comes
  first, how a failed call is turned into a plain value) stays there and is
  not verified.
- `tests/` runs the library on concrete values.
