//! Lyrics fetching engine: metadata normalisation, catalog search strategy,
//! track fingerprints, resumable sessions and the worker pool's decisions.

pub mod api;
pub mod cache;
pub mod messages;
pub mod paths;
pub mod scanner;
pub mod session;
pub mod text;
pub mod tui;
pub mod worker;
