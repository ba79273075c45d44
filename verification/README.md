# clocktop

A terminal clock widget with four panels: a clock, a countdown timer, a stopwatch with
laps, and a world clock. The logic is a Verus library; the terminal program around it is
ordinary Rust.

- `src/` — the verified library (crate `clocktop`):
  - `duration` — spans of time in nanoseconds, with checked arithmetic;
  - `timer`, `stopwatch` — the two state machines, each with a mathematical view and the
    invariant every operation keeps;
  - `appstate` — the whole application state, its ticks and its key handling;
  - `text`, `display`, `help`, `world` — the texts and colours the panels show;
  - `zones`, `clocks` — time zones and clock readings, with the calls into `chrono`,
    `chrono-tz` and `iana-time-zone` behind trusted items;
  - `config` — the settings and the command line;
  - `laws` — properties that span operations, proved.
- `app/` — the program: argument parsing (clap), the configuration file (figment, serde),
  the terminal (crossterm) and the drawing (ratatui).
- `tests/` — tests of the library.
