# nmrs_tui

The verified core of a keyboard-first terminal interface for NetworkManager, written in
Verus.

- `src/` is the library, verified with Verus: the interface state and how actions change it
  (`app`, `action`), what each key does (`events`), countdown timers (`timer`), the text
  field (`ui::input`), list selection (`ui::list`), screen geometry (`ui`, `ui::area`,
  `ui::popup`, `ui::toast`), the text of table rows and the help line (`ui::table`,
  `ui::help`), styles (`ui::style_config`), ordering and splitting scan results
  (`network`), laying a user configuration over the defaults (`config`) and the log level
  setting (`logger`).
- `app/` is the program around it: the terminal and its event loop (crossterm, ratatui),
  the NetworkManager service over D-Bus (nmrs, tokio), the configuration file (ron, serde,
  dirs), command-line arguments (clap) and logging (simplelog).
- `tests/` runs the library on concrete values.

Actions that need the outside world return commands; the program performs them and hands
the outcome back to the library's outcome functions, which decide what happens next.
