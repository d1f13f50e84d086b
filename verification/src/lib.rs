//! Command-dispatch core for a chat bot: pattern compilation, handler
//! registration, event routing, and chat-identity resolution.

pub mod event;
pub mod handler;
pub mod handlers;
pub mod language;
pub mod pattern;
pub mod resolver;
pub mod router;
pub mod tables;

pub use router::handle_update;
