# rust_backend

The verified core of a game backend: accounts and session tokens, friendships,
and leaderboards.

- `src/` is the library, verified with Verus. It holds the decisions the routes
  make, from what the request and the database gave: which query finds a user,
  when a session token expires, which usernames and passwords are accepted, how a
  friendship request is sent or accepted, which leaderboard pages a user may read
  and which records their totals count. Where a route answers with a fixed status
  and text (refusals, errors, confirmations), `src/` builds that answer
  (`src/answer.rs`) and its contract states it; answers that carry rows read from
  the database (leaderboard pages, friend rows) are put together in `app/`.
  `src/friendship.rs` models the friend tables and proves what adding and removing
  friends does to them. `src/trusted.rs` holds the calls into outside crates
  (regex, rand, bcrypt, uuid, chrono, the system clock) with the contracts that are
  believed of them.
- `app/` is the HTTP server (axum) and the database work (sqlx on PostgreSQL) that
  carries those decisions out.
- `tests/` exercises the library on concrete values.
