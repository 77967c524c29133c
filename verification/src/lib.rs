//! Verified core of a panel applet that shows what an MPRIS media player is playing.
//!
//! The library holds the decisions of the applet: how the panel label and the
//! popup texts are formatted, which player is shown, which player a command
//! goes to, and how the applet's state changes on each message. Reading the
//! players over D-Bus and drawing the widgets happen around it.

pub mod text;
pub mod config;
pub mod mpris;
pub mod panel;
pub mod label;
