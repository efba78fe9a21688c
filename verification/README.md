# groyne

A terminal client for Twitch chat. The library (`src/`) holds the logic, with
its contracts proved by Verus:

- `configuration`: the user's settings.
- `interface::action`: the actions that flow through the application.
- `interface::app`: the state machine that turns terminal events into actions
  and actions into state changes and terminal effects.
- `interface::components`: the panes: the chat history (the latest 50
  messages), the line editor, the stream-info summary, and the tiler that lays
  them out and routes actions to them.
- `api::eventsub`: what the client does with each EventSub websocket frame;
  chat messages that name an osu! beatmap are passed on as requests.
- `api::beatmap`: whether a chat message names a beatmap (a beatmap link
  with its ID).

`app/` is the program around it: the terminal, drawing, the websocket and
Helix I/O, and reading `config.toml`.

TLS: `reqwest` is built with `rustls-no-provider`, so that it and
`tokio-tungstenite` share one `rustls` build; `app/main.rs` therefore installs
`rustls`'s `ring` provider as the process default before any connection is
made.
