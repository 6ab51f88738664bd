//! Core logic of a bridge between a desktop media player's status interface
//! and remote clients: retry policy, player selection, status snapshots, the
//! latest-value cache, the poll loop's decisions and the per-connection
//! request protocol. All times are whole microseconds.

pub mod backoff;
pub mod text;
pub mod status;
pub mod locator;
pub mod cache;
pub mod poll;
pub mod session;
pub mod wire;
