# henry

Henry is a personal home-server daemon: it watches system health, manages
containers and a media server, runs coding sessions and a task agent, keeps
backups and rotated logs, and reacts to anomalies under a remediation policy.

## Layout

- `src/` is the library, written in Verus. Each operation carries a contract
  (`requires`/`ensures`) that Verus proves. It covers configuration, health,
  the instance lock, secrets, the container and media rules, coding sessions,
  the agent's task queue, planner and step bookkeeping, maintenance (backups,
  log rotation, scheduling, update checks), the reactive engine (observation,
  policy, decisions, action outcomes), the Telegram and HTTP replies, and the
  terminal interface's state. Calls into other crates (chrono, cron, uuid,
  getrandom, subtle) sit behind small trusted wrappers whose contracts say what
  those crates document.
- `tests/` holds ordinary Rust tests of the library.
- `app/` is the program around the library: command line, configuration files,
  the HTTP server, the Telegram bot, the container runtime client, the state
  database, the terminal drawing and the control loops. It is plain Rust and is
  not verified.

## Building the program

`Cargo.toml` lists the crates the library and its tests need, plus those
`app/` uses that could be brought in here. The HTTP server (axum, tower-http),
the Telegram bot (teloxide), the container client (bollard), the state database
(sqlx), the terminal interface (ratatui, crossterm) and the HTTP client
(reqwest, with `which`, `dirs`, `futures`) are not listed, so `app/` does not
compile from this manifest alone: add those crates to build the daemon.
