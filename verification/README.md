# preamble

A terminal music-library manager: it scans a directory of audio files into a
SQLite library, finds duplicates and damaged files, enriches tracks through
AcoustID, edits tags, exports lists and playlists, and keeps an undo log of
every destructive action.

The library under `src/` is written in Verus and verified:

- `text`, `formatters`, `panel`, `screen` — text helpers, table cells, the
  properties panel, and the texts of every screen (rows, titles, hints,
  popups, statistics columns, status messages).
- `track`, `tags` — track records, tag normalisation and the tag writes of the editor.
- `sort`, `app` — stable sorting, facets and search of track lists, tabs, the
  tag editor and the duplicates view.
- `keys`, `navigate`, `input`, `events` — the interface as a state machine:
  each key press or mouse event gives the next state and the work to do.
- `reader`, `undo`, `export`, `enrich`, `config`, `cli`, `api` — scanning
  decisions, integrity classification, undo plans, exports, enrichment
  results, configuration, the command line and the HTTP API's decisions.

`app/` is the program around it: the terminal, the database, the file system,
the network and the background jobs.
