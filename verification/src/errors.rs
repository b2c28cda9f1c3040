//! Error taxonomy of the control plane.
//!
//! Playlist-mutation and lifecycle errors are synchronous return values;
//! data-plane failures are reported by the engine as events and never
//! surface through these variants.

use vstd::prelude::*;

verus! {

/// Everything a control-plane call can fail with.
#[derive(Clone, Copy, Debug, PartialEq, Eq, Structural)]
pub enum StreamError {
    /// A session is already active; the caller must stop it first.
    AlreadyRunning,
    /// A switch was requested with no playlist items; the session stays idle.
    EmptyPlaylist,
    /// A move named a target position at or beyond the playlist length.
    InvalidIndex,
    /// A move named an id that no playlist item has.
    ItemNotFound,
}

impl StreamError {
    /// A short description, for callers that log or display errors.
    pub fn message(&self) -> (r: &'static str)
        ensures
            *self is AlreadyRunning ==> r@ == "stream is already running"@,
            *self is EmptyPlaylist ==> r@ == "playlist is empty"@,
            *self is InvalidIndex ==> r@ == "index out of bounds"@,
            *self is ItemNotFound ==> r@ == "id not found"@,
    {
        match self {
            StreamError::AlreadyRunning => "stream is already running",
            StreamError::EmptyPlaylist => "playlist is empty",
            StreamError::InvalidIndex => "index out of bounds",
            StreamError::ItemNotFound => "id not found",
        }
    }
}

} // verus!
