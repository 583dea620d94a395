# yasl

A Discord moderation bot that quarantines members who are banned or who display a banned
server tag, with moderator commands to manage bans, tag bans and exemptions.

The decisions live in the verified library under `src/`:

- `protocol` — requests for outside work, responses, and the `Machine` trait; `run` gives
  the requests a machine makes against a given outside world.
- `tag_check`, `quarantine`, `events`, `commands` — the machines for checking a user's tag,
  quarantining a user, handling gateway events and running the commands, each with laws
  that state its whole run.
- `permissions`, `config`, `signals`, `ids` — who may use the commands, where the files are,
  what a shutdown signal does, and how ids are stored.
- `messages`, `listings`, `decimal`, `time`, `table` — the texts the bot sends, the tables
  it lays out with `tabular`, and the times it writes with `chrono`.

`app/main.rs` is the program: it reads the configuration, opens the SQLite database,
connects to Discord through `poise`, and performs what the library's machines ask for.
