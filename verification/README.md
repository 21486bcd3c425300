# supervisor_core

The verified core of an agent supervisor that runs agents under Docker
Compose, with a desktop registry and an HTTP API.

`src/` is the library, checked by Verus:

- `access` — roles, permissions, which role grants which permission, and the
  checks every API request passes (bearer token, needed permission, role).
- `mission` — mission steps and the checks a mission passes before it is stored.
- `token` — API tokens: fresh identifiers, new tokens, the SHA-256 hex digest
  under which a token is stored.
- `env` — agent environment variables and their `.env` text, with the proof
  that writing and reading back gives the same variables whenever no name
  holds `=` or a line end and no value holds a line end or ends in a
  carriage return.
- `compose` — project names, container names, the generated compose file and
  the Compose command line.
- `status` — agent status from `docker ps`, the Docker installation report,
  command outcomes.
- `ops` — the operator command allowlist and its reports.
- `agent` — the files of a new, imported or duplicated agent.
- `text` — character-level helpers (trimming, case mapping, lines, parsing).

`app/` is the program around it: the HTTP server (axum, SQLite through sqlx),
the desktop supervisor's processes, files and database, and the serde forms
of the library's types.
