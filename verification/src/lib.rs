//! Verified core of aclaude: event parsing, session metrics, terminal
//! capability decisions, and the TUI's text rendering, key handling,
//! layout and scroll state.

pub mod bridge;
pub mod hooks;
pub mod json;
pub mod protocol_ext;
pub mod session;
pub mod terminal;
pub mod text;
pub mod tui;
