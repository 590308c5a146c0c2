# rclonedash

A dashboard for `rclone bisync` run as a systemd user service: service and timer state, run
history, the live log of a synchronisation, the local file browser with its exclusion rules,
and the settings.

## Layout

- `src/` — the library, verified with Verus. Each module states its behaviour in
  `requires`/`ensures` contracts over spec functions and proves it:
  - log decoding: `parser`, `logline`, `ansi`, `pattern` (regular expressions), `events`;
  - live state and history: `streamer`, `history`, `overview`, `countdown`, `systemd`;
  - configuration and settings: `config`, `settings`, `setting_cycle`, `settings_dialog`,
    `options_list`, `appearance`;
  - file browser and rules: `fs_tree`, `listing`, `filter_rules`, `recent`, `dry_run`,
    `installer`;
  - input handling: `line_edit` (text fields), `first_run`, `dialog_keys`, `dashboard_keys`,
    `hitboxes` (mouse), `clicks` (what a click or a key does first), `panels`, `scroll`,
    `views`, `dashboard`;
  - helpers: `text`, `numparse`, `clipboard`.
  Laws that relate several functions are public proof functions named `law_*`.
- `tests/` — tests of the library on concrete values.
- `app/` — the program around the library: command line, systemd/journald calls, files,
  clipboard, JSON decoding of rclone's log records, and the floating-point formatting of
  sizes, speeds and durations.
