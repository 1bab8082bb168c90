# yap_frontend

A terminal client for the YAP board-and-entry backend, built on cursive.

- `src/` is the verified library: request addresses and bodies (`endpoints`),
  decimal numerals (`text`), the classification of response statuses and the
  messages shown for them (`status`), the backend's data and its conversion
  (`model`), the entry and board list widgets (`views`), the registration rules
  (`register`), the saved session (`token`), the editor's time pickers
  (`schedule`) and the calendar and local wall clock (`clock`).
- `app/main.rs` is the program: the cursive screens, the HTTP calls through
  reqwest, the session file in the XDG configuration directory, and the serde
  forms of the library's types.
- `tests/` runs the library on concrete values.
