# pacwoman

A Catppuccin-themed frontend for libalpm. The library in `src/` holds the program's
logic, verified with Verus: command-line parsing, the configuration and its colours,
`pacman.conf` reading, transaction planning (target resolution, reconciliation with a
desired package list, cascading removal), every line the program prints, version
comparison for self-updates, and the AUR build helpers. `app/` is the program around
it: libalpm, the network, files, processes and the terminal.

Modules of the library:

- `cli`: the command line, as a state machine over the arguments.
- `config`, `configfile`: the configuration, its defaults, colour resolution, loading and
  the `--check-config` report.
- `pacconf`: settings and repositories of `pacman.conf`, and a step-by-step walk that
  collects a repository's servers through its `Include` files.
- `transaction`: flags, target resolution, the `--declarative` state file and its
  reconciliation, missing `-R` targets, cascades, summaries,
  failure reports.
- `query`, `lookup`: the output of `-Q` and of the `-S` lookups.
- `callbacks`: what libalpm's log, event, progress, download and question callbacks
  print.
- `aur`: AUR addresses and the build manager's commands and output handling.
- `update`: version numbers, the published `Cargo.toml`, self-update commands.
- `flow`: help, version, targets from standard input, handle settings.
- `render`, `size`, `text`: output lines, sizes in human units, string operations.
