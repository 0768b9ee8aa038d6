//! The vocabulary between the worker pool and the presentation layer.

use vstd::prelude::*;
use crate::scanner::metadata::Track;
use crate::session::StatusType;

verus! {

/// What the worker pool tells the presentation layer.
#[derive(Debug, Clone)]
pub enum WorkerMessage {
    SessionRestoring,
    CountsRestored { downloaded: usize, cached: usize, skipped: usize, processed: usize },
    ScanProgress { files_found: usize },
    ScanStarted { total_files: usize },
    TrackProcessing { track: Track },
    LyricsFound { path: String },
    LyricsNotFound { path: String },
    CacheHit { path: String },
    AlreadyHasLrc { path: String },
    Error { path: String, error: String },
    LogRestore { filename: String, status: StatusType },
    ScanComplete { processed: usize, found: usize },
}

/// What the presentation layer tells the worker pool.
#[derive(Debug, Clone, Copy, PartialEq, Eq, Structural)]
pub enum UiMessage {
    Quit,
    Pause,
    Resume,
}

} // verus!
