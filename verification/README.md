# mission_service

The back end of a mission platform: stores post visit missions, users join
them, check in daily, spend coupons and buy memberships, and climb rankings.

- `src/` is the library, verified with Verus. Every rule of the service lives
  there as a function with a contract: sign-up and login, access and refresh
  tokens and their rotation, the refresh cookie, attendance streaks, coupon
  effects, membership purchases, mission creation and the visit check with its
  lock, achievements, rankings, social-login profiles, runtime settings and
  upload paths. Laws that span functions are public proof functions named
  `law_*`.
- `app/` is the HTTP server (axum and sqlx): it reads requests, the database,
  the environment and the clock, hands the values to the library, and writes
  back what the library decides.
- `tests/` runs the library on concrete values, with the real `jsonwebtoken`,
  `bcrypt`, `chrono` and `uuid` behind it.
