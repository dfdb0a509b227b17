# spotiline

A headless Spotify client for the terminal: a background daemon that talks to the
Spotify Web API, a command line for scripts and agents, and a terminal dashboard.

## Layout

- `src/` is the verified library (Verus):
  - `text.rs`: whitespace, trimming, splitting, decimal numbers and JSON string encoding,
    each with an exact specification;
  - `state.rs`: the IPC messages between clients and the daemon;
  - `config.rs`: the configuration and credentials files and their defaults;
  - `auth.rs`: reading the OAuth callback, the pages answered to the browser, the
    steps of the first-time authorization (stored token, callback or pasted redirect
    URL, token request, storage), and the order in which credentials are looked up;
  - `player.rs`: the daemon's decisions — which Web API request serves a command, and
    how the API's answers become replies and playback state;
  - `cli.rs`: what each command sends, and every line the command line prints;
  - `tui.rs`: the dashboard's state and its answers to keys.
- `app/` is the program around it: sockets, files, the keyring, the browser, the
  Spotify client, the terminal, and the serde copies of the message types.
- `tests/` exercises the library on concrete values.
