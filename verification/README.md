# litrpg

A LitRPG progression system: characters with grades, levels, attributes,
skills and classes, libraries of skills, classes, professions and skill
trees, a JSON command-line interface and a terminal interface.

Layout:

- `src/` — the verified library. `models/` holds the data types and their
  rules (grades, attributes, mastery ranks, level-ups, tree costs),
  `commands/` the logic of the command-line operations (argument parsing,
  character updates, library edits), `ui/` the state machines of the
  terminal tabs (each key press maps a state to a new state and an action
  for the caller), `text.rs` and `collections.rs` the string and sequence
  helpers they share.
- `app/` — the program around it: argument parsing with clap, JSON files
  with serde, drawing with ratatui and crossterm, and the experience
  formulas, which compute in floating point.
- `tests/` — tests of the library.
