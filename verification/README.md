# api

Account and session service for a recipe-sharing application: registration,
login, refresh-token rotation, logout, password and login changes, account
deletion, and bearer-token authentication.

The crate is a Verus-verified library (`src/`) with a thin Axum/sqlx server
around it (`app/`).

## Layout

- `src/utils/validators/` – e-mail, login and password checks, each with an
  exact specification of what it accepts and which error it reports.
- `src/errors.rs` – `AppError`, its HTTP status and JSON body, and the mapping
  of database failures (`DbError`) to client-facing errors.
- `src/utils/session/` – refresh tokens (random, URL-safe base64) and their
  SHA-256 storage hashes, HS256 access tokens framed by the library and signed
  by `jsonwebtoken`, the per-user session cap, and bearer-header parsing.
- `src/handler/` – every request handler as a state machine: `start` takes
  the request, `resume` takes the outcome of the last database or crypto
  action and names the next one, until the handler replies or fails.
  `flow.rs` holds the shared `Action`, `Event`, `Reply` and cookie types.
- `src/models/` – database enums and rows, with identifiers as 128-bit
  numbers, times as `UtcTime`, and JSON columns as JSON text.
- `src/encoding.rs`, `src/text.rs`, `src/clock.rs` – JSON string literals,
  hex, base64, UUID spelling, character helpers and the system clock.
- `app/` – `main`, the connection pool, the routes, the serde/sqlx copies of
  the library's types, Argon2 password hashing, and the executor that
  performs the actions the handler state machines ask for.
