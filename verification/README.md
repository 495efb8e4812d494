# larkstack

The verified core of a host for Lark (Feishu) integrations: console-managed
notification routing, the Lark-app credential registry, webhook signature
checks, Lark callback decryption and classification, and three integrations
(a Linear bridge, a daily-standup bot, a meeting-digest bot). Each function
in `src/` carries a Verus contract; the `*/laws.rs` modules state properties
that span several functions.

- `src/` — the library, verified with Verus.
  - `text` — string helpers with character-level specifications.
  - `keyed` — name-keyed entries in a `Vec`, read as a map.
  - `config_text`, `config_doc` — reading the console's TOML config (the
    registry, an App's change key) and editing it with `toml_edit`.
  - `routing` — rule matching, destination union, validation, delivery.
  - `lark`, `console`, `control`, `plane`, `supervisor`, `host` — the
    registry, the console API's checks, control-plane values, the status
    board, App supervision, boot settings.
  - `kit` — cards, per-App Lark settings, signature checks, callbacks.
  - `linear`, `standup`, `digest` — the integrations' logic.
- `tests/` — tests run against the compiled library.
- `app/` — JSON, TOML and environment glue, the control plane's locks, the
  debounce timers and the standup scheduler threads around the library.
