# scufflecloud

The verified core of the scuffle.cloud authentication and e-mail services, written in Verus.

`src/` holds the rules the services apply, each with a contract that Verus proves:

- `auth`, `headers`: reading and checking signed requests (HMAC over named headers, timestamp
  window, session expiry) and the store of claimed nonces, which refuses a nonce replayed
  within its window.
- `geoip`: the client address behind trusted reverse proxies.
- `ids`, `entity_type_name`, `cedar`: identifiers, entity names and the entities, context and
  answers of authorization.
- `sessions`, `tokens`, `mfa`, `totp`, `login`, `google`: sessions, their tokens, passwords,
  recovery codes, second factors and the sign-in flows.
- `emails`, `email_service`: the e-mails the core sends and the requests of the e-mail service.
- `operation`: the course of an operation (validate, load, authorize, execute, commit or roll back).
- `config`, `pb`, `models`, `services`: configuration, records and their API form.

Calls into outside crates (`sha2`, `hmac`, `base64`, `urlencoding`, `ulid`, `url`, `chrono`,
`argon2`, `rand`, `rsa`, `pkcs8`, `totp-rs`, `mail-builder`, `cedar-policy`) stand behind small
trusted wrappers. Each contract states what the crate's source shows in a few lines; a result
that would take pages to state (a digest, the authorization engine's decision, the set of
possible ciphertexts or messages) is given a name, and the library's contracts are exact over
those names. Results that depend on chance or the clock are stated as far as every outcome
allows.

`app/` holds the edges: standard-library address parsing, the clock, certificate files and
Google's JSON answers. `tests/` runs the library against the real outside crates.
