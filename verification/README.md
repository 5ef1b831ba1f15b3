# craft_cli

A command-line client for the Craft document API, built as a verified
library (`src/`) and a thin program around it (`app/`).

- `src/text.rs` — decimal rendering, trailing-slash trimming, lexicographic
  order on characters, concatenation.
- `src/error.rs` — errors, their exit codes, kinds and texts; transport failures.
- `src/cli.rs` — the command-line arguments and `key=value` parsing.
- `src/config.rs` — the config file model (a table of named APIs and the
  current name), its operations, config-file lookup order and connection
  resolution, with the laws that tie them together.
- `src/client.rs` — the request each API operation sends, and how an answer
  is read.
- `src/commands.rs` — what each subcommand decides before and between requests,
  including the steps of insert, update, move and upload (read standard input,
  look up a daily note for insert and upload, then send).
- `src/json.rs` — JSON documents and the encoding of request bodies.
- `src/logger.rs` — the verbosity switch and debug lines.
- `app/` — argument parsing with clap, HTTP with reqwest, config file I/O with
  serde_json and directories, and printing.
