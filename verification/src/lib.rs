//! Verified state and decision logic of the server control window: command-bar
//! parsing, dialog state, log filtering, and the texts and colours the window shows.

pub mod text;
pub mod protocol;
pub mod command;
pub mod color;
pub mod uptime;
pub mod app;
pub mod laws;
