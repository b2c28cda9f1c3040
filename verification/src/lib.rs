//! Control plane for a playlist-driven live playout engine.
//!
//! The library keeps the playlist, decides which item plays next, and plans
//! the processing graph and the switch/teardown actions for each transition.
//! The media engine that executes those plans lives outside the library.

pub mod control;
pub mod errors;
pub mod graph;
pub mod models;
pub mod source;
pub mod streamer;

pub use crate::errors::StreamError;
pub use crate::models::{EncodingSettings, PlaylistItem};
pub use crate::streamer::Streamer;
