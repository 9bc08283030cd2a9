# scam

`scam` (secure copy and move) copies or moves files and directory trees and
accepts a file as transferred only once the BLAKE3 checksum of the destination
equals the checksum of the source. Interrupted copies are resumed from a
destination prefix that matches the source, failed attempts are retried, and
source permissions and timestamps are restored on the destination.

```text
scam <+|-> <SOURCE> <DESTINATION> [OPTIONS]

  --hash-buffer-size <BYTES>   Read buffer used while hashing files
  --copy-buffer-size <BYTES>   Copy buffer used for resumable/manual copies
  --max-retries <COUNT>        Maximum attempts per file; omit for unlimited retries
  --retry-delay-ms <MS>        Delay between failed attempts
  --jobs <COUNT>               Worker threads for directory file copies
  --progress                   Print aggregate live progress to stderr
  -v, --verbose                Print a summary after success
```

## Layout

The decisions of the program live in a library verified with Verus (`src/`);
the program around it (`app/`) performs the filesystem work, runs the worker
threads and prints.

- `src/cli.rs` — the command-line grammar as a specification, and a parser
  proved to follow it.
- `src/plan.rs` — cp/mv-style destination resolution, the same-path and
  destination-inside-source refusals, and the mapping of walked entries into
  the plan.
- `src/copy.rs` — the per-file transfer as a state machine: each step takes the
  result of the last filesystem action and names the next one. Its laws state
  that a file is finished only after its destination verified, that a move
  deletes the source only after the destination verified and the source was
  found unchanged, and that only verified bytes are resumed.
- `src/checksum.rs` — incremental BLAKE3 hashing through the `blake3` crate,
  and the hexadecimal form of a digest.
- `src/progress.rs` — progress counters that a failed attempt rolls back.
- `src/engine.rs` — the order of a whole run as a state machine (directories
  first, files, directory metadata and source removal in reverse), and the
  run's totals.
- `src/metadata.rs`, `src/model.rs`, `src/error.rs` — metadata restoration
  choices, shared types (paths as the platform's bytes) and errors.
- `app/` — `main`, argument reading with clap, filesystem access, rayon worker
  pools and terminal output.
- `tests/` — tests of the library.
