# shared

The rules and data of a small 2D action game, verified with Verus: abilities
(attacks), enemies and levels made in an editor, and fights that a websocket
game server runs for web and desktop clients.

Layout:

- `src/` is the verified library. Its contracts state what each function
  returns or changes; its proof functions (`lemma_*`) state the laws that hold
  across calls.
  - `attack`, `action`, `hero`, `fight`: timers, damage, recovery, dashes,
    keys held, health and respawn, the parts of complex attacks.
  - `level`, `npc`, `resource`, `character`, `list`: the data the editor saves.
  - `editor` and its modules: what the editor's pages do with each request.
  - `client`, `ws`, `ui_app`, `frame`: the clients' keys, messages, screens and
    frame counting.
  - `broadcaster`, `game_loop`, `server`: the server's websocket writers and
    what its loop does for each message.
  - `text`: decimal numbers in text, both ways.
- `tests/` runs the library on concrete values.
- `app/` is the game server program: websockets, files, serialization, and the
  positions, angles and hit tests, which are computed in floating point.
