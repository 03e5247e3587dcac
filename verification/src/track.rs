//! Tracks: the playable units queued by the playlist.

use vstd::prelude::*;

verus! {

/// The kind of media a track holds. Position persistence dispatches on this:
/// music and podcast positions live in separate stores.
#[derive(Clone, Copy, Debug, PartialEq, Eq, Structural)]
pub enum MediaType {
    Music,
    Podcast,
}

/// A playable unit: identity, duration and media type.
///
/// The identity is an opaque token; callers key position records and
/// staleness checks on it. A track whose `media_type` is `None` is never
/// persisted.
#[derive(Clone, Copy, Debug, PartialEq, Eq, Structural)]
pub struct Track {
    pub id: u64,
    pub duration_secs: u64,
    pub media_type: Option<MediaType>,
}

impl Track {
    /// The duration of the track in whole seconds.
    pub fn duration(&self) -> (d: u64)
        ensures
            d == self.duration_secs,
    {
        self.duration_secs
    }
}

} // verus!
