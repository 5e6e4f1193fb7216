# DevDock

DevDock is a Windows tray application that supervises local development
services (plain processes, React Native's Metro bundler and Windows services)
described in `%APPDATA%\DevDock\devdock.config.json`.

## Layout

- `src/` — the verified library (Verus): DevDock's rules and decisions, each
  function with a contract:
  - `config` — the configuration model, its defaults, the validation rules
    (with their messages), placeholder expansion (`${APP_DATA}`,
    `${CONFIG_DIR}`, `${LOG_DIR}`) and the resolution of a loaded file.
  - `paths` — Windows paths as text (joined and split as `PathBuf::join` and
    `Path::parent` do on Windows) and the location of the configuration.
  - `service` — lifecycles, the per-service state table, and the decisions
    behind start, stop, actions and react-native commands.
  - `restart` — the restart sequence as a state machine: each event that
    `app/` reports leads to the next step it performs.
  - `process_manager` — the table of running processes and every state change
    that starting, stopping, output lines and exits cause.
  - `tray` — the tray menu as data (its top level and each service's submenu), the menu item ids and their dispatch, and
    the icons as RGBA pixels.
  - `terminal`, `react_native`, `windows_service`, `logs` — the command lines,
    requests and log lines DevDock produces, and how it reads the answers.
  - `table`, `text` — a text-keyed map and character-level string operations.
- `app/` — the Tauri application around the library: file and process I/O,
  threads and locks, the serde forms of the configuration, and the tray.
- `tests/` — tests of the library.
