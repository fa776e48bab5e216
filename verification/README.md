# momolite

The rules of the MomoLite English-learning desktop app, written in Verus with their
contracts proved: Markdown vocabulary books, card and sentence reviews, daily learning
plans, language-model prompts and replies, generated-scene planning and coverage, the
links between scene lines and target words, WebDAV sync (paths, URLs, merge decisions and
statements) and the Piper speech cache.

Layout:

- `src/` — the verified library (`text`, `json`, `clock`, `vocab`, `db`, `llm`, `links`,
  `sync`, `tts`).
- `tests/` — executable tests of the library.
- `app/` — the Tauri commands around it: SQLite, HTTP, files, the speech engine, and the
  floating-point scheduling of word memory.
