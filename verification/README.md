# neolith

A Hotline protocol library with a server around it.

- `src/` is the library, verified with Verus: the wire format (handshakes,
  transaction frames and their parameters, flattened files and forks,
  AppleSingle/AppleDouble headers), the typed transactions, and the server's
  decisions (logins, users, chat rooms, news, file listings under a shared
  root, transfers). Calls into `encoding_rs`, `pwhash`, `time` and `regex`
  stand behind small trusted wrappers whose contracts say what those crates
  do.
- `tests/` runs the library on concrete values.
- `app/` is the server program: sockets, the file system, account files and
  the loops that carry out what the library decides.
