//! The two record shapes produced by the API: a played-track entry and a
//! paginated playlist envelope.

use vstd::prelude::*;

verus! {

/// One played song entry.
#[derive(Debug, Clone, PartialEq, Eq)]
pub struct Track {
    /// Timestamp at which the track is/was played.
    pub timestamp: i64,
    /// Human-readable playing date, opaque to this library.
    pub date: String,
    /// Channel identifier.
    pub channel: i32,
    /// Name(s) of the track's artist(s).
    pub artist: String,
    /// Name of the track's song.
    pub song: String,
}

/// One page of track history.
#[derive(Debug, Clone, PartialEq, Eq)]
pub struct Playlist {
    /// Played tracks, in the order returned by the API.
    pub items: Vec<Track>,
    /// Opaque continuation cursor for fetching the subsequent page.
    pub next_token: i64,
}

} // verus!
