//! The OpenCode engine.
//!
//! What the `opencode` executable prints becomes engine events, what it lists becomes models, and
//! what happens to a turn becomes the next thing to do. Everything here is decided on plain values;
//! running processes, passing events on and keeping tables is left to the application.

pub mod engine;
pub mod error;
pub mod event;
pub mod event_parser;
pub mod ident;
pub mod json;
pub mod laws;
pub mod lifecycle;
pub mod model_preferences;
pub mod models;
pub mod opencode;
pub mod opencode_event_mapper;
pub mod text;
pub mod transport;
