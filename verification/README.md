# backend

The verified core of an address-book and login server for remote-desktop
clients, written in Verus.

- `src/` is the library. Every executable function there is verified,
  apart from the small wrappers (marked `#[verifier::external_body]`) that
  call `jsonwebtoken`, `rust-argon2`, `rand`, `chrono` and the `uuid`
  re-export of `sea-orm`; their doc comments say what their contracts
  claim.
  - `gate`, `auth`, `auth_new`, `routes`: the authentication middleware's
    decisions (open routes, the bearer header, token expiry).
  - `token`: token claims, their one-week lifetime, and JWT signing and
    checking.
  - `hash`: Argon2 password hashing and checking.
  - `account`: registration, login and the current-user query.
  - `address_book`, `peer`, `tag`: the address book and its storage
    format (tags joined with `;`).
  - `user`, `schema`, `m20220101_*`: records, bodies and table definitions.
  - `text`: prefixes, trimming, splitting and joining, over `Seq<char>`.
- `app/` is the server around it: actix-web, sea-orm, serde, the
  environment, and the copies of the library's types that carry those
  crates' derives.
- `tests/` runs the library on concrete values.
