# axum_api

Backend of a solar-panel sensor dashboard: an ESP32 posts light and power
readings, a scheduler stores one sensor-log row every five seconds, users
register and log in with JWTs, and the dashboard reads a stabilised latest
reading, the history of a day and pending commands.

- `src/` is the verified library (Verus): request validation, the dashboard's
  one-minute per-column stabilisation, the scheduler's decisions, the
  registration, login and sensor-submission flows as state machines, token
  issuing and decoding (`jsonwebtoken`), password hashing (`bcrypt`), the clock and
  date parsing (`chrono`), the `Authorization` header check, and the error model. Each flow is a transition function with an exact contract; the laws
  that span calls (one row per interval, row order does not matter, a
  heartbeat never changes the shown values, the flow protocols) are proof
  functions beside the code they speak of.
- `app/` is the server around it: Axum routes and middleware, PostgreSQL
  (sqlx) and Redis I/O, JSON shapes, and the loops that run the state machines.
- `tests/` exercises the library on concrete values.
