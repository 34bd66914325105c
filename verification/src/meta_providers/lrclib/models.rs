//! The documents that LRCLIB answers with.
use vstd::prelude::*;

verus! {

/// Lyrics that may be those of the song.
#[derive(Debug)]
pub struct LrcLibResponse {
    pub title: String,
    /// How far the duration is from that of the song. Only the order counts: a
    /// closer duration has a smaller number.
    pub distance: u32,
    pub plain: String,
    pub synced: Option<String>,
}

/// An error of the service.
#[derive(Debug)]
pub struct LrcLibErrorResponse {
    pub code: i32,
}

} // verus!
