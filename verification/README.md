# pane_handshake

How a program that opens a terminal pane learns that the shell in it has
started, and that the shell shows its prompt.

- `src/` is the library. `tmux` and `pipe` hold the two handshakes: the commands
  that make a pane signal readiness, and the waiting for that signal as a machine
  that says what to do next and takes in what came of it. `prompt` recognizes
  prompts, and `prompt_wait` waits for one. The modules whose names end in `_laws`
  hold what is proved of every run of these machines. All of it is verified with
  Verus but for the bodies of five functions, whose contracts are trusted:
  `strip_ansi_codes` in `prompt` (the crate `console`), and in `pipe` `path_text`
  (`String::from_utf8_lossy`), `owner_read` and `owner_write` (the crate `nix`)
  and `input_event` (the crate `libc`).
- `app/` carries out what the machines ask for: processes, pipes, clocks.
- `tests/` runs the library.
