# mononoke_cmdlib

Command-line scaffolding for Mononoke tools, verified with Verus.

- `src/` is the verified library: the arguments every tool registers
  (`args`, `cli`, `hgcli`), the values read back from a command line
  (`arg_values`, `text`), cachelib sizing (`cachelib`), repository selection
  and storage decisions (`repo`), the Scuba fields of API requests (`scuba`),
  and the key/value rendering of errors for structured logs (`slogkv`).
- `app/` holds what touches the process, the disk and the Mononoke services:
  loggers and panic handlers, cachelib initialisation, repository storage,
  the actix middleware, the `slog::KV` impl and `hgcli`'s entry point.
- `tests/` runs the library on concrete values, and through `clap`.
