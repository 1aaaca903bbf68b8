# githop

A terminal tool for quick git branch operations: list, switch, copy,
delete (with a safety prompt for unmerged branches), create, rename and
filter local branches, with a preview of recent commits.

## Layout

- `src/` — the library, verified with Verus.
  - `text.rs`: whitespace trimming, line splitting, substring search and
    decimal rendering over character sequences.
  - `git.rs`: reading `git branch` output, the command line of each branch
    operation, and what a finished git run yields.
  - `app.rs`: the state of the switcher and its steps (`handle_key`,
    `resume`). Work that needs the outside world is named in `pending`; the
    caller performs it and hands the outcome back.
  - `model.rs`: the model each step is held to.
  - `laws.rs`: properties proved over that model (selection stays in range,
    deletion needs confirmation, filter behaviour, and so on).
  - `ui.rs`: the text and emphasis of each part of the screen.
- `app/` — the program: terminal, keyboard, running git and the clipboard,
  and painting with ratatui.
- `tests/` — tests of the library.
