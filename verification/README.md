# mk_dl_bot

A Telegram bot that downloads videos with yt-dlp and ffmpeg, and keeps its users,
chats and their requests in PostgreSQL.

- `src/` is the verified library: finding and parsing links, choosing the formats
  to download, the command lines of yt-dlp, ffmpeg and ffprobe, the errors of those
  programs, the rows of the database and how they are written in messages, and the
  decisions of the bot's commands. Every function there carries a contract. Verus
  proves all of them but five small wrappers (around std's `String::push`,
  `str::from_utf8` and the text of an I/O error, and around the regex and url
  crates), whose contracts it takes on trust; `text.rs` holds the text, number and
  path helpers the rest builds on.
- `app/` is the program around it: the Telegram dispatcher, the database queries,
  running the outside programs, and reading the environment.
- `tests/` runs the library on concrete values.
