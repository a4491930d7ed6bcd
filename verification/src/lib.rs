//! Rendering model of a terminal chat client: turns the chat log and the
//! transient interface state into styled text regions and a cursor position.

pub mod content;
pub mod frame;
pub mod input;
pub mod layout;
pub mod panel;
pub mod state;
pub mod style;
pub mod text;
pub mod transcript;
