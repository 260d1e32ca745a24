# actix_jwt_api

A JWT-authenticated HTTP API (users, products, e-mail) with optional
two-factor authentication and per-address brute-force protection.

- `src/` is the verified library: request validation, login and token
  checks, the user and product endpoints' decisions, listings and paging,
  the middleware as step machines, the brute-force counter and wall, the
  second-factor setup and checks, signing and checking access tokens, the
  base32 and base64 encodings of secrets (stated as spec functions), and
  the settings. Calls into `bcrypt`, `totp-rs`, `jsonwebtoken`, `base32`,
  `base64`, `validator`, `regex` and `rand` stand behind wrappers whose
  contracts are trusted.
- `app/` is the server around it: routes, database (diesel), cache (redis),
  mail (lettre), the OAuth2 provider (reqwest) and the clock.
- `tests/` exercise the library on concrete values.
