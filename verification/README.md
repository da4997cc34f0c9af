# gmon

A terminal monitor for game servers, split in two:

- `src/` is the verified library. It holds the stored server records and
  the rules that turn them into running servers, the JSON store's records
  and lookups, the settings and their key/value and list syntax, the "add
  server" form, the choice of address among those a name lookup gives, the
  interface state machine with its key handling, and the texts and figures
  the interface shows. Every function carries a contract that Verus proves.
- `app/` is the code around it: the JSON file and the SQLite database, the
  name lookups themselves, the clocks, and drawing with ratatui and reading
  keys with crossterm. It makes no decision of its own; it calls the library.
- `tests/` runs the library on concrete values.
