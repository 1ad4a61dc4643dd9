# mmp

The core of a small music server: it scans a music folder, reads each audio
file's tags into a song record, keeps the songs in an in-memory library found
by id, indexes them for free-text search, and streams them through ffmpeg.

- `src/` is the verified library: song records and their metadata
  (`song`), building a song from a file's tags (`songfile`), the library
  (`library`), cover file locations (`paths`), which files count as music
  (`files`), the search index layout, the song search and its hits (`search`),
  building the index schema (`schema`), the ffmpeg
  stream command and output collection (`stream`), route answers (`routes`),
  start-up tasks (`tasks`), and string helpers (`text`).
- `app/` is the server around it: HTTP routes (axum), opening and writing
  the search index on disk (tantivy), reading tags from files (lofty), the folder walk, logging and
  argument parsing.
- `tests/` runs the library on concrete values.

`Cargo.toml` pins `zstd-sys` to 2.0.8: tantivy's `zstd-safe` 6.0.6 does not
compile against later `zstd-sys` releases, which cargo would otherwise pick.
No code uses it directly.
