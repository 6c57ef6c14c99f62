//! Core engine of a local-library music player: filesystem scan bookkeeping,
//! metadata derivation, a play queue with repeat semantics, equalizer and
//! normalization parameter state, and the playback transport state machine.
//!
//! Audio decoding, the real-time sample path, filesystem walking and
//! persistence I/O live with the host application; this crate holds the
//! decisions and data rules, each stated in a contract.

pub mod config;
pub mod equalizer;
pub mod metadata;
pub mod normalization;
pub mod playback;
pub mod scan;
pub mod store;
pub mod watch;
pub mod text;
pub mod types;

pub mod queue;
