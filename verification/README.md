# drive_service

The club drive service: spaces, folders and files with a trash, uploads and
downloads, and read-only share links with expiry, download limits and
passwords.

- `src/` is the verified library (Verus). It holds the configuration, the
  identifiers and storage keys, the node and share state with their
  operations, and every decision the HTTP handlers make, each with a
  contract; laws such as "restoring undoes a delete", "a share limited to n
  downloads allows exactly n" and "percent-encoded names decode back" are
  proof functions there.
- `app/` is the HTTP server around it: axum handlers, the sea-orm entities,
  migrations and queries, storage and token verification.
- `tests/` exercise the library on concrete values.
