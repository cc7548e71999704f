# app_libs

Building blocks of a small web service, written in Verus: each function of
the library in `src/` states its behaviour in `requires` / `ensures`, and
Verus proves it (calls into outside crates go through trusted wrappers whose
contracts are stated, not proved).

- `src/identifiers`: ULID (the default), UUID v7 and NanoID generation, with
  proofs that ULID and UUID texts sort like the values they encode.
- `src/utils/env`: configuration read from a snapshot of environment variables.
- `src/utils/lettre`: e-mail composition and SMTP settings on top of lettre.
- `src/utils/maxminddb`: reading the client's address and time zone from
  request headers, and choosing the GeoLite2 database in the downloaded archive.
- `src/utils/jsonwebtoken`: the claims of issued tokens.
- `src/telemetry`: OpenTelemetry configuration.
- `src/app_error.rs`: the response that each request error gives.

`app/` is the service itself (HTTP server, I/O, exporters, token signing);
`tests/` runs the library.
