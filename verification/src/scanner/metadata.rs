//! The descriptive attributes read from a media file.

use vstd::prelude::*;

verus! {

/// One media file and what its tags say.
#[derive(Debug, Clone)]
pub struct Track {
    pub path: String,
    pub artist: String,
    pub title: String,
    pub album: String,
    pub duration_secs: u64,
}

} // verus!
