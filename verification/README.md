# wsredis

A websocket server that keeps per-table state in Redis, with its request
handling written as a verified Verus library.

- `src/` — the verified library: key naming (`keys`), decimal text (`text`),
  configuration (`config`), the Redis command vocabulary (`store`), the
  register / auth / table-listing / websocket-message protocols as state
  machines (`handler`), the connection registry (`connections`), and the
  trusted wrappers around argon2, uuid and chrono (`outside`).
- `app/` — the program: environment, warp routes, the async loops that run
  each protocol's commands against Redis, and the pub/sub listeners.
- `tests/` — scenarios run against the compiled library.
