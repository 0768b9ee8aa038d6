//! The catalog's record of one track.

use vstd::prelude::*;

verus! {

/// What the catalog reports for a track.
#[derive(Debug)]
pub struct LyricsResponse {
    pub artist_name: String,
    pub track_name: String,
    pub synced_lyrics: Option<String>,
    pub plain_lyrics: Option<String>,
}

} // verus!
