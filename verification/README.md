# hmux

The server-side state of a terminal multiplexer, written in Verus: sessions
and the window links they show, session groups, paste buffers, the
environment, key tables, wait channels, access control and the pane layout
tree. Every function in `src/` carries a `requires`/`ensures` contract over a
mathematical model of the data (`Seq`, `Map`, `Set` views) and is proved by
Verus; the laws that relate several operations stand as public proof
functions beside them.

## Layout

- `src/layout.rs`, `src/layout_string.rs`, `src/layout_format.rs`: the layout
  tree of panes (split, remove, resize, even/tiled/main arrangements) and its
  text form with checksum.
- `src/winlinks.rs`, `src/target.rs`, `src/session.rs`: window links of a
  session, target parsing and the session record.
- `src/state.rs` and `src/state/`: the server state and its operations,
  one file per concern (`lifecycle`, `links`, `moves`, `teardown`, `windows`,
  `buffers`, `keys`, `acl`, and `panes`, `reap`, `breaks` for the window
  records, the end of pane children and `break-pane`).
- `src/env.rs`, `src/wait.rs`, `src/alerts.rs`, `src/flags.rs`, `src/mode.rs`,
  `src/search.rs`, `src/render.rs`, `src/vt_rows.rs`, `src/text.rs`,
  `src/text_map.rs`: smaller pieces of server logic and their helpers.
- `tests/`: executable tests of the library.
- `app/`: the thin unverified shell around the library (process plumbing).
