# awrust_cli

Library behind `awr`, a command-line client for the awrust local AWS service
emulator, verified with Verus.

- `src/` is the verified library: request paths and bodies, printed lines,
  error messages, and the order of the requests each command makes
  (`session`: a command is a sequence of stages; `runner`: one action at a
  time, the first failure ending the command; `laws` states whole runs,
  failures included).
- `app/` is the program: argument parsing (clap), HTTP (reqwest), local files
  and the terminal (tokio), and reading the XML listings (quick-xml, serde).
- `tests/` runs the library on concrete commands and outcomes.
