# buas

`buas <command> [args...]` runs a command in a fresh DRAM workspace below
`/dev/shm/buas/<generation>` and, once the command exits with code 0,
publishes the workspace's top-level entries into the current directory as
symlinks. When running or publishing fails, the symlinks of this run and the
workspace are cleaned up and the first error is reported.

- `src/` is the verified library: byte paths (`path`), generation names
  (`generation`), errors and their messages (`error`), the run as a state
  machine (`session`) and what every run keeps (`laws`).
- `app/main.rs` drives a session against the real file system and processes.
- `tests/` runs the library on concrete inputs.
