# file_share

A file sharing service: accounts with Argon2-hashed passwords, signed
bearer tokens valid for 24 hours, uploads that start private, are written
directly inside `uploads/` and never replace another user's file, sharing
and revoking by the file's owner, and public links.

- `src/` is the verified library. Each endpoint is a state machine
  (`endpoints`) over the vocabulary in `protocol`: it asks for one table,
  disk or token operation at a time and decides on the answer. `tables`
  models what each operation reads and writes, `sql` holds the statements
  that perform them, and `laws` proves, against that model, what every
  endpoint replies and changes and what follows across requests (a shared
  file can be downloaded by the user it was shared with, a revoked one can
  no longer, a registered password logs in, uploads are private and leave
  other users' files alone, files stay private until made public, every
  request keeps the tables' constraints, ...).
- `app/` is the HTTP server: routing, the SQLite pool, disk access,
  multipart reading and JSON web tokens. It performs the operations that
  the machines ask for and turns their replies into responses.
- `tests/` runs the library, including the endpoints against an in-memory
  server.
