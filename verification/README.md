# okane

The core of the Okane banking service, verified with Verus.

- `src/` is the library. `amount` holds money as `rust_decimal` holds it and calls the
  crate's arithmetic; `ledger` computes an account's balance from the transactions table
  and states what recording a transfer does to balances; `paymongo` parses PayMongo's
  signature header and checks its HMAC-SHA256 signature; `checkout` turns amounts into
  centavos and reads PayMongo's checkout replies; `auth` holds passwords (Argon2), age and
  registration rules, login, and signing and reading session tokens (jsonwebtoken);
  `accounts` and `handlers` hold the decisions of the account and webhook routes, the
  webhook's reading of the signed JSON body included; `cookies` builds the session cookie.
- `app/` is the HTTP server around it: axum routes, PostgreSQL queries (sqlx), the clock
  and environment, HTTP calls to PayMongo (reqwest) and Stripe (async-stripe).
- `tests/` exercises the library on concrete values.
