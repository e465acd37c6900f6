# arduino_tui

A keyboard-driven terminal browser for Arduino libraries that runs `arduino-cli`
to list, search, install and uninstall them.

- `src/` is the verified library (Verus):
  - `app.rs`: the interface as a state machine. `step` states how every event
    (a key, a tick, a command's reply) changes the state and which command it
    starts; `App::handle_event` is proved to follow it.
  - `laws.rs`: properties across events (selection stays in range, Up undoes
    Down, '?' toggles help, Backspace undoes typing, only 'q' quits, busy while
    a command runs, uninstall undoes install, ...).
  - `cli.rs`: the arguments of each `arduino-cli` command and what a finished
    command amounts to.
  - `library.rs`: the library record and the conversion of the tool's replies.
  - `screen.rs`: what the screen shows of a state (titles, list entries,
    details pane, help text, styles).
  - `layout.rs`: the panes of the screen and the centred help popup, through
    ratatui's layout solver.
  - `text.rs`: string building and decimal numbers.
- `app/` is the program around it: terminal setup, drawing with ratatui,
  reading keys with crossterm, running the commands with tokio, and reading
  their JSON with serde.
- `tests/` runs the library on concrete values.
