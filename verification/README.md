# rust_neon_template

An HTTP API in front of Neon Auth and the Neon Data API (sign-up, sign-in,
sign-out, notes CRUD, health check), split into a library verified with Verus
and a thin server around it.

## Layout

- `src/` — the verified library.
  - `text.rs`: searching, splitting, prefix stripping, decimal printing and
    `u16` parsing, each with an exact specification.
  - `config/`: the configuration (`Config::from_values`, with the defaults of
    `PORT` and `HOST`) and the `NeonClient`: which request each Auth or Data API
    call sends, and how each answer changes the client's token.
  - `services/auth.rs`: the same for the plain Neon Auth client.
  - `handlers/`: the decisions of the handlers — mapping a refused sign-in or
    sign-up to an API error, reading the user from a JWT, the health report, the
    answers of the notes handlers.
  - `response.rs`, `error.rs`: the error envelopes, and the level at which a
    finished request is logged.
  - `bindings.rs`: the contracts of the outside functions that the library calls
    (`url`, `urlencoding`, `base64`, `serde_json`, `anyhow`, and `String::push`).
- `tests/` — tests of the library on concrete values.
- `app/` — the server: environment, routing (axum), the HTTP exchanges
  (reqwest), JSON (serde) and logging (tracing).

## Error envelope

| Code             | Status | When                      |
|------------------|--------|---------------------------|
| `BAD_REQUEST`    | 400    | Invalid input             |
| `UNAUTHORIZED`   | 401    | Missing/wrong credentials |
| `NOT_FOUND`      | 404    | Resource doesn't exist    |
| `INTERNAL_ERROR` | 500    | Server error              |
