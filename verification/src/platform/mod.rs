//! The connection that a client is built for, on each platform.

pub mod native;
pub mod web;

pub use native::ws_client;
