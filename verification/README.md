# scrap

A terminal browser for the files in the user's Trash (`~/.Trash`): the files
are sorted into eight kinds, one tab each, and a small query language
(`delete all`, `delete <type>`) empties the Trash as a whole or kind by kind.

- `src/` is the library, verified with Verus: the kinds and their extension
  table (`item`), the items of one kind (`scrap`), the Trash sorted by kind
  (`scrap_yard`), the query language (`query`), the browser's state and what
  each key does to it (`app`), and the string operations they rest on
  (`text`).
- `app/` is the terminal program around it: reading the Trash directory,
  drawing with ratatui, reading keys with crossterm, and removing deleted
  files from the disk.
- `tests/` runs the library on concrete values.
