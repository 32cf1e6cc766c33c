# subtle-rs

A tiling window manager for X11. The decisions it makes are a Verus-verified
library; a thin program around it talks to the X server.

## Layout

- `src/` — the verified library (`subtle_rs`). Verus checks every function
  in it; the public ones carry `requires`/`ensures` contracts, and a few
  private helpers carry none. Five small wrappers around `regex`,
  `x11-keysymdef`, `hex_color` and `str::to_lowercase` are trusted: Verus
  believes their contracts without proving them (as it does the declaration
  of `regex::Regex`), and their doc comments say
  what is claimed.
  - geometry and styles: `rect`, `spacing`, `style`, `styles`, `font`,
    `gravity`, `size`, `arrange`, `tile`, `drag`
  - configuration: `config`, `setup`, `logger`, `grab` (key and mouse
    bindings), `tag`, `view`, `pattern` (regex matching)
  - clients: `client`, `hints`, `lifecycle`, `toggle`, `stacking`
  - screens and panels: `screen`, `panel`, `render`, `tray`, `xbm` (icon
    files)
  - events: `event`, `dispatch`, `subtle` (lookups over the global state)
  - `laws` — properties that span several functions, stated and proved as
    proof functions
- `tests/` — tests of the library on concrete values.
- `app/` — the program: command line and configuration file, logging, the
  X connection, and the event loop that hands each event to the library and
  carries out what it decides.

## Building

The library is checked with Verus; the program is ordinary Rust that links
against it.
