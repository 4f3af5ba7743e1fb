# wordsnap

WordSnap translates the selected text when a shortcut is pressed and shows
the translation in a small card near the selection; single English words are
kept in a local word list.

- `src/` is the verified library (Verus): text handling, settings and base-URL
  normalisation, the translation state machine, the clipboard-capture state
  machine, the exchange with an
  OpenAI-compatible API (prompt, replies, error messages), log formatting,
  word-list labels, and window geometry. Laws about these are proved as
  public proof functions beside the code they speak of.
- `tests/` exercises the library on concrete values.
- `app/` is the desktop shell (Tauri): windows, tray, global shortcut,
  clipboard and keyboard simulation, SQLite, HTTP, files and logging. It
  performs the actions that the library's state machines and functions
  decide; what it decides itself is platform plumbing (which window, which
  API to call) and the floating-point placement of the card.
