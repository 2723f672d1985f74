# tada-rust

A terminal Qur'an reader (command line, interactive wizard and full-screen
reader) whose core is verified with Verus.

## Layout

- `src/` — the verified library (crate `tada_rust`):
  - `domain` — checked values (surah, ayah, bookmark id, search limit, plan
    count, qari id, language tag) and the catalogue records;
  - `qari_urls` — the sorted map of recitation URLs by qari;
  - `usecases`, `dto`, `ports` — reading, search, playback preparation,
    bookmarks, progress, the daily plan, sync and diagnostics, over the
    repository traits;
  - `quran_api` — what the reader takes from the content API's JSON answers;
  - `config`, `cli`, `output`, `commands` — settings rules, command
    arguments, output style, tables and messages of the commands;
  - `audio` — the playlist player model, cache names and eviction order;
  - `tui` — the full-screen reader's state machine (`actions`), key
    bindings (`input`), layout rules (`render`), themes and Arabic text
    preparation;
  - `text` — string helpers with their specifications.
- `tests/` — tests of the library.
- `app/` — the program around it: terminal, network, database, sound device,
  settings file and command-line parsing.
