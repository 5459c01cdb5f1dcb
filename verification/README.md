# usage_monitor

The logic of a Windows taskbar widget that shows how much of a usage quota is
spent and when it resets, verified with Verus.

- `src/localization` — languages, their text tables, and which language is shown.
  The widget speaks two languages, English and Brazilian Portuguese; the
  language menu offers the system default and these two.
- `src/appearance` — colours: hex text in both directions, `COLORREF`, shading.
- `src/scheme` — colour scheme modes and their palettes.
- `src/layout` — DPI scaling, widget size, placement on the taskbar, dragging,
  message-parameter decoding.
- `src/render` — panel and row geometry, layered-window alpha.
- `src/polling` — retry backoff, countdown refresh, tray-move debounce.
- `src/events` — timer, data and display messages, how the widget is drawn,
  and where it goes on the taskbar.
- `src/state` — the widget's state and how polls, theme changes, drags and
  visibility change it.
- `src/menu` — context-menu ids and entries, the commands they stand for, their
  effect on the state, what the window does next, and which items are checked.
- `src/settings` — the settings file's contents, saving them from the state and
  building the start-up state from them.
- `src/theme`, `src/startup` — decisions on values read from the registry.
- `app/` — the settings file on disk (serde), the clock for tray movements,
  the floating-point bar fill, and on Windows the registry, the UI language and
  building the context menu (windows crate); `app/widget.rs` ties the
  library's steps to the settings file.
