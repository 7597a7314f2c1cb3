//! A verified core for a tool-calling conversational agent.
//!
//! The library holds the message model, the bounded per-conversation context
//! store, the capability registry, the iterative tool-calling executor and
//! the streaming-response decoder, each with contracts checked by Verus.
//! Network transport, terminal rendering and other I/O live outside the
//! library and drive it through plain values.

pub mod agent;
pub mod chat_widget;
pub mod clock;
pub mod config;
pub mod context;
pub mod errors;
pub mod event;
pub mod executor;
pub mod input_widget;
pub mod jsonio;
pub mod message;
pub mod models;
pub mod provider;
pub mod schema;
pub mod state;
pub mod status_widget;
pub mod stream;
pub mod strmap;
pub mod text;
pub mod text_widget;
pub mod tool;
pub mod tool_registry;
