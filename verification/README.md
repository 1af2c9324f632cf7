# vrmemoir

VRMemoir follows VRChat's log, records each room visit (VRChat's audio,
optionally the microphone, and a markdown timeline of the players who came and
went), keeps a local SQLite database of the players met, serves it over a local
HTTP API (`127.0.0.1:3001`), and exports per-user reports from VRCX's database.

## Layout

- `src/` — the library, verified with Verus:
  - `watcher.rs` — reading log lines into events, resuming a log file, finding
    the newest log and the last room entered;
  - `fsm.rs` — the state machine (idle, in a world, recording) and the actions
    each log event asks for; the pacing of profile fetches;
  - `session.rs` — a session's folder name, timeline rows and timeline file;
  - `recorder.rs` — VRChat's process, microphone settings, PCM framing and
    mixing, Ogg/Opus header packets;
  - `report.rs` — the VRCX timeline (newest first) and the user report with the
    line ranges of its sections;
  - `bio.rs` — a user's BIO page, its file name, the fetch rate limits;
  - `api.rs` — reading login and session replies, Basic credentials, the
    cookie jar, the automatic-login limit and endpoint lockouts;
  - `stamps.rs` — times remembered per key;
  - `i18n.rs`, `translations.rs` — messages in English, Chinese, Japanese and
    Korean;
  - `text.rs`, `markdown.rs` — text and line utilities.
- `tests/` — tests of the library.
- `app/` — the program: configuration, HTTP client and server, database, file
  and audio I/O, driving the library.

## Configuration

The `.env` beside the executable may set `VRC_COOKIE`, `VRC_USERNAME`,
`VRC_PASSWORD`, `VRC_PROXY`, `RECORD_MIC`, `MIC_DEVICE` and `VRCX_DB_PATH`.
