# youwee

The logic of the Youwee downloader and TikTok Live recorder as a verified
Verus library: yt-dlp and ffmpeg command lines, the reading of their
output, file naming, the watchlist and recording state machines, the
persisted rows of watch entries and jobs, Telegram remote commands, cookie
headers, search-response parsing and the update checks of the external
tools. Each public function carries a contract over spec functions; the
laws that relate several functions are public proof functions named
`law_*`.

Layout:

- `src/` — the library, verified by Verus. Calls into `url`, `regex`,
  `chrono` and `std::path` stand behind small trusted wrappers whose doc
  comments say what is assumed of them.
- `tests/` — tests of the library on concrete values.
- `app/` — the ordinary Rust around it: SQLite tables (`rusqlite`), JSON
  documents (`serde_json`), files, processes, the platform, shared state,
  and the parts that need floating point.
