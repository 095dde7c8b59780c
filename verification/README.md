# youtube-terminal

A terminal client for YouTube: search with filters, a card grid and list
views, channel and playlist pages, subscriptions, saved searches, watch
history, playback through mpv, and session restore.

The project is split in two:

- `src/` is the library, written in Verus and verified. It holds the
  application state machine (`app`, `dispatch`, `navigation`, `handler`),
  the decisions that turn each user action or finished request into the next
  state and a list of effects to perform (`effects`, `controller`, `replies`,
  `handler_spec`), key mapping (`keymap`), session capture and restore
  (`session`), Netscape cookie parsing and filtering (`cookies`), the mpv
  command line (`launch`), layout and selection arithmetic (`layout`,
  `selection`), thumbnail planning and decoded-thumbnail cache (`thumbs`,
  `imagery`), the For You feed ordering (`feed`) and text formatting
  (`format`, `text`). The `*_laws` modules state and prove properties that
  span several functions.
- `app/` is the program around it: the terminal loop, rendering with
  ratatui, the mpv process and its IPC socket, the SQLite database, the
  configuration file, network access, and the serde copies of the library's
  persisted types.

Tests of the library are under `tests/`.

## Keys

| Key                        | Action                    |
| -------------------------- | ------------------------- |
| `q` / `Ctrl+c`             | Quit                      |
| `/` or `s`                 | Focus search              |
| `1` / `2` / `3`            | Switch tab (For You / Subscriptions / History) |
| `4`                        | History tab               |
| `Tab` / `Shift+Tab`        | Next / previous tab (For You, Saved Searches, Subscriptions, History) |
| `h` `j` `k` `l` / arrows   | Navigate                  |
| `Enter`                    | Select                    |
| `Esc`                      | Back                      |
| `Space`                    | Toggle pause              |
| `<` / `>`                  | Seek -10s / +10s          |
| `+` / `=` / `-`            | Volume up / down          |
| `:`                        | Command mode              |
