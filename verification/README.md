# XETA

The rules of a messaging server, verified with Verus, and a thin server around
them.

- `src/` is the library. A handler is a chain of small states: each says what
  it waits for and goes on with the answer. `accounts` registers users and logs
  them in, `auth` and `token` say who is asking, `users` looks users up,
  `messages` delivers and reads messages, `uploads` takes images. `query` holds
  the statements for the database, `reply` the refusals. `laws` states what
  holds of the whole. `tables` models what the statements find in the database
  and leave in it, and `histories` states over that model what one request
  finds of another.
- `app/` is the server: HTTP with axum, the database with sqlx, the disk.
- `tests/` runs the library.

What the library takes from other crates without proof (bcrypt, JSON Web
Tokens, UUIDs, the clock, header values) stands behind small functions whose
contracts say what is believed of them.
