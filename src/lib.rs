//! Supervision and configuration synchronisation for a desktop proxy client.
//!
//! The library holds the configuration model, the builders that turn a
//! subscription node into engine outbounds, the decisions of the process
//! supervisor and of the single-consumer coordinator, and the bookkeeping of
//! node speed tests. Everything that touches the disk, the network or the
//! child process lives in the application around it.
pub mod text;
pub mod engine;
pub mod config;
pub mod error;
pub mod builder;
pub mod store;
pub mod speed;
pub mod subs;
pub mod ui;
pub mod message;
pub mod supervisor;
pub mod release;
