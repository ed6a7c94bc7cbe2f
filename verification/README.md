# reveleitor

The verified core of a programming-contest scoreboard "reveal" panel and of
the server that feeds it.

- `src/panel.rs` — the reveal panel as a state machine: each message
  (`Prox1`, `Prox(n)`, `Scroll1`, `Scroll(n)`, `Reset`, `Fetched`) changes the
  panel and yields one `Effect` for the application to carry out; the
  proved laws show that "+1" and "Top n" always lead to the scroll that
  enables the buttons again, and that a successful fetch after a reset
  enables them (a failed fetch leaves the panel as it was, buttons included).
- `src/query.rs` — the `source`, `secret` and `filter` parameters of the
  panel's address (seed's `Url`).
- `src/archive.rs` — reading `time`, `contest` and `runs` out of the
  contest's zip archive, trying `name`, `./name`, `./sample/name` and
  `sample/name` in turn and taking the first that reads (the `zip` crate).
- `src/secret.rs` — the random secret path part (the `rand` crate).
- `src/routes.rs` — the distinct sources, the download address of each, and
  the secret route name.
- `app/` — the warp server and the seed front end, which do the I/O.
