# server_gui

The logic of a game server's control window, verified with Verus.

- `src/` — the verified library: the window state (`app`), the command-bar parser
  (`command`), the server messages (`protocol`), text helpers with their specifications
  (`text`), the uptime clock (`uptime`), colours (`color`) and the proved properties (`laws`).
- `app/` — the egui/eframe window that draws the state, forwards clicks and server events to
  it, and sends the commands it returns over the tokio channel.
- `tests/` — executable tests of the library.
