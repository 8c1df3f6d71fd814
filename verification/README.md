# plippet

A small hotkey snippet picker for Wayland and X11: a compositor shortcut
runs `plippet pick --paste`, a dmenu-style picker offers the snippets of
`~/.config/plippet/snippets.toml`, the chosen snippet is copied to the
clipboard and, with `--paste`, pasted or typed into the focused window.

The decision-making part is a library verified with Verus; the program
around it does the I/O.

## Layout

- `src/` — the verified library.
  - `config.rs`: the snippet file's data model, its validity rules
    (`Config::validate` returns `Ok` exactly when every rule holds, else
    the error of the first faulty snippet) and the file's location.
  - `snippet.rs`: what a snippet copies (body verbatim; command output
    without trailing line breaks).
  - `picker.rs`: picker programs, what they are fed, how their answer is
    read back, and the order `--picker auto` tries them in.
  - `injector.rs`: which paste backend `auto` resolves to, and the exact
    plan of a paste (focus, wait, then commands or portal key events).
  - `tools.rs`: session detection from the environment variables.
  - `editor.rs`: the snippet manager's editing state (drafts, fresh keys,
    dialogs, saving and reverting).
  - `cli.rs`: picker lines, key lookup and the `check` report.
  - `text.rs`: trimming, case folding, number formatting, and the few
    standard-library calls the library trusts.
- `tests/` — tests of the library on concrete values.
- `app/` — the command-line program: argument parsing, reading and writing
  the TOML file, running the picker, clipboard, `xdotool`/`wtype` and the
  desktop portal.

This build has no snippet-manager window: the `edit` command and the
built-in picker are absent, as in a build without the GUI feature, so
`--picker auto` chooses among the external pickers only. The editing state
the window would drive is in `src/editor.rs`.

Verify with Verus; build and test with Cargo.
