# scorpiofs

The decision-making core of ScorpioFS, a FUSE-based monorepo filesystem with
the Antares per-job overlay, written in Verus with its contracts proved.

## Layout

- `src/util/config.rs` — the runtime configuration: resolution of every value
  across command-line overrides, `SCORPIO_*` environment variables, the config
  file's `[section]` and flat forms and the built-in defaults; typing of
  numbers, booleans and stat modes; start-up validation (first problem) and
  offline validation (every problem); the process-wide store that keeps the
  explicit configuration apart from early-read defaults; the accessors and the
  `config show` rendering.
- `src/util/sources.rs` — the trusted boundary to the `toml`, `url`,
  `whoami`, `uuid` and `serde_json` crates.
- `src/util/overrides.rs` — key/value overrides with replace-on-insert.
- `src/util/laws.rs` — properties of resolution and of the store.
- `src/manager.rs` — checked-out workspaces and the overlap check before a mount.
- `src/antares.rs` — Antares paths, mount planning, the unmount grace period
  and the registry of mounted jobs.
- `src/mount_tasks.rs` — the daemon's table of mount tasks (held in a
  `dashmap::DashMap`): recorded as fetching, completed, and forgotten once a
  finished or failed outcome has been read.
- `src/mount_flow.rs` — the order of a mount request's steps: refusal of a
  mounted or overlapping target, recording and persisting a temporary mount
  with its rollback, and the fetched mount.
- `src/cli/` — the exit codes, the Antares override flags, what each command
  reports and exits with, and how `serve` ends.
- `src/doctor.rs`, `src/daemon.rs`, `src/server.rs` — what the diagnostics,
  the HTTP handlers and the FUSE mount helper decide.
- `src/text.rs` — trimming, ASCII case mapping, decimal rendering and parsing.
- `app/` — the `scorpio` binary: argument parsing, files, environment and
  network.
