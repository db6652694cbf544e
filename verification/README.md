# mirrorfour_api

The scheduling API of Mirror Four: administrators manage user accounts and
the weekly timeframes of each user.

- `src/` is the verified library: roles and the users shown by the API
  (`types`), the database rows (`db`), calendar arithmetic and time-zone
  lookups (`time`), the decisions of the endpoints (`api`: login, the
  administrators' guard, account creation, timeframes read and written in a
  time zone) and the session key (`session`).
- `app/` is the HTTP server: actix-web handlers, sessions, the PostgreSQL
  queries and the serde/OpenAPI copies of the library's types.
- `tests/` runs the library on concrete values.
