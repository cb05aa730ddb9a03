//! Control layer for a single media-playback engine driven by many callers.
//!
//! The engine is owned by one actor; callers reach it through messages. This
//! library holds the message protocol, the actor's decisions, the requests
//! the engine binding makes for each operation, the mapping of channel
//! outcomes to caller results, a recording engine that the ordering laws are
//! stated over, the store of watch-progress records, and the normalization of
//! catalog entries.

pub mod protocol;
pub mod engine;
pub mod actor;
pub mod handle;
pub mod laws;
pub mod session;
pub mod binding;
pub mod catalog;
pub mod streams;
