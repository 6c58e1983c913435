# good_first_bot

A Telegram bot that tracks GitHub repositories and notifies users of new
issues carrying the labels they chose. The decision logic of the bot is a
Verus-verified library; the program around it is ordinary Rust.

## Layout

- `src/` — the verified library:
  - `pagination` — splitting lists into pages, with laws on where each
    item lands.
  - `storage` — repository identifiers (`owner/name` and URL parsing), the
    in-memory store with its read-after-write laws, and the computations of
    the SQLite store (label toggling and encoding, reading rows back).
  - `repository` — per-user limits and the labels view (sorting by issue
    count, filtering, selection).
  - `github` — GitHub data and the classification of API failures.
  - `poller` — one repository's poll as a state machine, with its laws.
  - `messaging` — message texts, inline keyboards and callback data.
  - `bot_handler` — callback actions, routing, and the steps of each
    command.
  - `config` — configuration from the values of environment variables.
  - `text`, `urls` — verified string helpers and the URL reader.
- `tests/` — tests of the library.
- `app/` — the executable: Telegram dispatcher, SQLite, HTTP/GraphQL and
  the polling loop. It performs the I/O around the library's functions; a
  few steps of the handlers (refreshing the list after a removal) are
  sequenced there.
