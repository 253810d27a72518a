//! A shared pixel canvas kept in a Redis store: canvas keys, the packed image
//! format, the five-byte pixel-edit frame, the store operations on a canvas, and
//! the per-connection session and notification-bridge state machines.

pub mod keys;
pub mod error;
pub mod canvas;
pub mod frame;
pub mod store;
pub mod config;
pub mod session;
