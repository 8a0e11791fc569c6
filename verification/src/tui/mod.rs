//! Terminal UI logic: tool-call rendering, key handling, layout and
//! scrolling.

pub mod app;
pub mod diff;
pub mod input;
pub mod layout;
pub mod scroll;
