# qrt_rust_utils

Utilities for downloading streams, queueing tasks in a document store,
logging and small text jobs, with their logic verified by Verus.

- `src/` is the verified library. Each module states what its functions
  return in `requires`/`ensures` contracts over mathematical models, and
  proves laws that relate several calls (version order, the consumer's step
  functions, the running-task list, the local buffer clean-up, decimal text).
  Calls into the `regex`, `url` and `chrono` crates and into a few parts of
  std stand behind small trusted functions whose contracts say what the
  library relies on.
- `tests/` runs the library on concrete values.
- `app/` holds the input/output around it: processes (ffmpeg, youtube-dl),
  HTTP, the document store, the key-value store, the local SQLite buffer,
  logging back ends and the async loops that follow the library's steps.

`Cargo.toml` does not list two crates that `app/` calls: `fruently` (which
sends records to fluentd, from `app/logging.rs`) and `mscheduler` (the
Telegram task producer, from `app/tg_notification.rs`). `app/` compiles once
both are added.
