# mma_tui

A terminal front end for a local UFC statistics pipeline: it browses the
read-only SQLite database, asks a long-lived Python sidecar for fight
predictions, and runs the Go scraper and the model trainer as background jobs.

## Layout

- `src/` — the verified library (Verus). Every function carries a contract.
  - `nav` — the screen stack, the menus and every key binding, as decisions.
  - `app` — per-screen state: list selections, the predict pickers, and the
    locally applied eligibility policy (pools, candidates, pick validation).
  - `models` — row and message types, divisions, weight classes, and the
    eligibility rule.
  - `fuzzy` — case-insensitive fuzzy ranking of names (scores from the
    `fuzzy-matcher` crate).
  - `config` — path derivation and the environment-override precedence.
  - `jobs` — background-job messages, status, the bounded log, and how output
    lines become messages.
  - `scraper`, `db` — progress-line and card-number parsing, scraper flags,
    `LIKE` escaping.
  - `protocol` — request ids and reply matching for the sidecar's line
    protocol.
  - `anim`, `display`, `stats_text` — the intro animation and the plain-text
    pieces of the screens.
  - `text` — character-level helpers shared by the parsers and formatters.
- `app/` — the program around the library: terminal setup and the event loop
  (crossterm, ratatui), SQLite queries (rusqlite), the sidecar process and its
  JSON wire types (serde), process spawning, and everything that formats or
  compares floating-point values.
- `tests/` — tests of the library's public API.
