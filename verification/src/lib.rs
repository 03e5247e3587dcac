//! Playback-and-persistence core of a terminal music/podcast player.
//!
//! The crate owns the current play session: a playlist with a cursor and a
//! loop policy, a playback state machine that drives an audio backend
//! through queued commands, a last-played-position persistence policy over
//! two key-value stores, a bounded download worker pool with a shared
//! progress table, and a router that turns inbound background events into
//! session mutations, one mutation per event, in order.

pub mod backend;
pub mod layout;
pub mod path;
pub mod playlist;
pub mod pool;
pub mod router;
pub mod session;
pub mod store;
pub mod track;
