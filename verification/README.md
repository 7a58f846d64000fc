# osuwapp

A desktop companion for osu! (stable): it reads the running game, shows live
performance points and hit counts, and draws a movable HUD over the game with
an in-game editor.

The decision logic is a library verified with Verus; the desktop shell around
it is ordinary Rust.

## Layout

- `src/` — the verified library.
  - `models.rs` — overlay settings and their normalization, connection and hit snapshots.
  - `game.rs` — game states and phases, judgement counts and accuracy, the
    slider-break tracker, mod text, recent-play bookkeeping, and which snapshot a poll produces.
  - `difficulty.rs` — the per-map cache of difficulty attributes (rosu-pp behind trusted wrappers).
  - `map_file.rs` — the fields read from `.osu` files and the choice of the main menu's beatmap file.
  - `session.rs` — a gameplay reading turned into counts and calculation bounds.
  - `status.rs` — the clock and connection snapshots.
  - `text.rs` — string helpers stated over `Seq<char>`.
  - `overlay/` — window geometry, HUD panel layout and hit testing, editor
    input handling, key bindings, and the state machines of the web and injected overlays.
- `tests/` — tests of the library on concrete values.
- `app/` — the Tauri shell: commands, tray, JSON storage, the memory reader
  loop, Win32 window handling and the software renderer of the in-game HUD.

