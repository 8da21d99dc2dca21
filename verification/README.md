# textfmt

A background text formatter driven by global hotkeys: select text in any
application, press a hotkey, and the selection is replaced by its transformed
form (Russian/US keyboard layout conversion, case changes, whitespace cleanup,
grapheme-aware reversal, camelCase and snake_case).

Layout:

- `src/` — the library, verified with Verus: the layout tables and conversions
  (`layout`), the transformations (`transform`), text primitives (`text`),
  hotkey parsing and key-press matching (`hotkey`), the configuration and its
  defaults (`settings`), the settings screen's logic (`ui`) and the decisions
  around copying and pasting a selection (`selection`).
- `app/` — the program around it: command line, configuration file I/O (TOML),
  the terminal settings screen, clipboard and keyboard access on Windows and
  Wayland, and the daemon's event loop.
- `tests/` — tests of the library on concrete values.
