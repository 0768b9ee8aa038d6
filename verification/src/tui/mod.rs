//! What the presentation layer shows: the state behind the screen and the
//! arithmetic of its progress bar. Drawing is not in this library.

pub mod state;
pub mod widgets;
