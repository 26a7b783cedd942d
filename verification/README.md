# Avernus

A desktop client for Matrix. The library under `src/` holds what the client knows and decides, with
contracts that Verus proves; the program under `app/` draws the window and talks to the homeserver.

- `src/text.rs`: trimming, prefixes, searching and shortening of text.
- `src/matrix/`: rooms, messages and events (`types`, `rooms`, `history`, `store`), identifiers,
  the saved session, attachments, timelines, verification, and the state of the client (`client`).
- `src/matrix/login.rs` and `src/matrix/tasks.rs`: sessions and tasks as state machines. Each turn
  takes an answer and gives the next steps; `app/driver.rs` takes those steps.
- `src/app_layout.rs` and `src/screen.rs`: what the window shows and what the user does with it.
- The `*_laws.rs` modules state what holds of the client, its sessions and its tasks as a whole.
