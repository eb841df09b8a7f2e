# media_server

A small self-hosted media server (catalogue, thumbnails, HLS streaming, a
password check) whose decision and text-building logic is a Verus-verified
library.

Layout:

- `src/` — the verified library (`media_server`):
  - `text` — decimal formatting, string equality and substring search;
  - `config::settings` — the settings and their defaults;
  - `db` — media types and records, the catalogue's search query, row mapping;
  - `scanner` — which files enter the catalogue, and the response to directory changes;
  - `processing` — ffmpeg/ffprobe arguments, WebVTT sprite cues, the worker's
    counters and per-file job state machine;
  - `server` — the password check, login, page data, HLS playlists and segment
    waiting, screenshots, template filters.
- `app/` — the program around it: configuration file, SQLite, ffmpeg processes,
  the file watcher, the axum web server and page rendering.
- `tests/` — tests of the library on concrete values.
