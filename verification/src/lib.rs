//! The state, rules and wire format of the amp-showcase console.
//!
//! A private GitHub repo holds one `state.json`. The console reads it and writes
//! it back through the GitHub Contents API, and queues commands in it for an
//! executor that runs in that repo. This crate holds everything that the console
//! decides: what a command does to the state, what goes over the wire and what
//! comes back from it, how a conflicting write is retried, what is kept in the
//! browser's storage, and what the screens show.

pub mod app;
pub mod codec;
pub mod enqueue;
pub mod laws;
pub mod models;
pub mod screens;
pub mod setup;
pub mod storage;
pub mod sync;
pub mod text;
