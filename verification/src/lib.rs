//! Verified core of a headless Spotify client: IPC model, player decisions,
//! command planning, TUI state and the text handling they rely on.
pub mod auth;
pub mod cli;
pub mod config;
pub mod player;
pub mod state;
pub mod text;
pub mod tui;
