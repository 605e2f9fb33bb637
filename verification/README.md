# rustbreak

A cooperative quiz game played in a chat: players connect to a TCP server,
register a name, and are grouped into parties of three. When a party is full
its session starts, shows a prelude, and then walks through a fixed list of
question scenes. Every player answers; the round is won when the right answers
are at least as many as the wrong ones, and a lost round costs one of three
lives.

Layout:

- `src/` — the verified library (Verus):
  - `text.rs`: character-level specifications of trimming, ASCII case folding
    and decimal numbers, verified functions that do them, and the binding to
    `str::to_lowercase`;
  - `player.rs`, `game_scene.rs`, `messages.rs`: the plain data types;
  - `game_session.rs`: a session, its abstract view and invariant, and the
    operations on it (registration, answers and rounds, scenes, prelude);
  - `protocol.rs`: how client lines are read and which party a new player joins;
  - `game_loop.rs`: for each game event, the new session and the actions the
    server performs;
  - `laws.rs`: properties that span several operations.
- `app/` — the server itself (tokio, serde, file loading), which performs the
  actions the library decides.
- `tests/` — tests of the library on concrete values.

Scene files are read from `data/<name>.json` next to the crate.
