# kiro

Credentials for the Kiro API, in verified Rust (Verus).

- `cli_credentials` finds the login of the local Kiro CLI: where its database
  lies, which rows to ask for, and what they mean. A lookup is a sequence of
  questions (is there a file, what does `sqlite3` print); the caller answers
  them, the library decides.
- `queries`, `sqlite`, `export`, `expiry` and `detect_error` hold the parts: the
  SQL, reading a run of `sqlite3`, reading the exported row, normalizing expiry
  times, and what can go wrong.
- `credentials` holds credentials and the two shapes of a credentials file;
  `import` adds a detected login to such a file, once, and `save` writes it.
- `startup` decides which credentials the proxy serves with and whether its
  configuration can be served; `arg` holds the command line.
- `strings` trims, splits and reads numbers; `paths` carries file system paths.

Every function states in its `ensures` what it returns; the `law_` functions
state what holds across functions. What is taken on trust of chrono and of the
standard library stands in doc comments at `external_body` functions and
`assume_specification` items.

`app/` is the program around the library: arguments, files, `sqlite3`, HTTP.
