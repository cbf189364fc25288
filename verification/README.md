# tgrc

A command-line reader for Telegram (public channels, private groups and
Saved Messages) built on TDLib. The decisions of the program live in a
library verified with Verus; the program around it does the terminal, file
and network work.

## Layout

- `src/` — the verified library
  - `config.rs` — the configuration file: TOML parsed by the `toml` crate,
    the schema (`[telegram]`, optional `[channel]`) checked in verified code
  - `decimal.rs` — decimal integers as Rust parses and prints them
  - `chat.rs` — which chat a `read` argument names, lookup replies, message
    and chat-list rendering
  - `history.rs` — paginated history fetching (`--limit`, `--skip`) and the
    proof that a read shows exactly the requested page
  - `auth.rs` — the authorization dialogue with TDLib as a state machine
  - `paths.rs` — session directory and configuration file candidates
  - `cli.rs` — defaults and report lines of the commands
  - `text.rs` — string helpers
- `tests/` — tests of the library
- `app/` — the program: command line (`clap`), TDLib client (`tdlib-rs`,
  `tokio`), terminal prompts, files
