//! The state behind the screen, and how each message of the worker pool
//! changes it.

use vstd::prelude::*;
use std::collections::VecDeque;
use crate::messages::{UiMessage, WorkerMessage};
use crate::paths::{file_name, path_file_name};
use crate::session::StatusType;
use crate::text::{decimal, push_decimal};

verus! {

/// Most log lines the screen keeps; older ones are dropped first.
pub const MAX_LOG_LINES: usize = 100;

/// What the run is doing.
#[derive(Debug, Clone, PartialEq)]
pub enum Status {
    Idle,
    Restoring,
    Scanning,
    Processing,
    Complete,
    Error(String),
}

/// A key the user pressed.
#[derive(Debug, Clone, Copy, PartialEq, Eq, Structural)]
pub enum Key {
    Char(char),
    Esc,
    Other,
}

/// The state behind the screen.
#[derive(Debug, Clone)]
pub struct AppState {
    pub total_files: usize,
    pub processed: usize,
    pub found: usize,
    pub downloaded: usize,
    pub cached: usize,
    pub skipped: usize,
    pub current_track: Option<String>,
    /// The log lines, oldest first.
    pub logs: VecDeque<String>,
    pub status: Status,
    pub should_quit: bool,
    pub paused: bool,
    pub scroll_offset: usize,
}

/// An [`AppState`] as mathematical values: counts without a bound, texts as
/// sequences of characters.
pub struct AppView {
    pub total_files: nat,
    pub processed: nat,
    pub found: nat,
    pub downloaded: nat,
    pub cached: nat,
    pub skipped: nat,
    pub current_track: Option<Seq<char>>,
    pub logs: Seq<Seq<char>>,
    pub status: Status,
    pub should_quit: bool,
    pub paused: bool,
    pub scroll_offset: nat,
}

impl View for AppState {
    type V = AppView;

    open spec fn view(&self) -> AppView {
        AppView {
            total_files: self.total_files as nat,
            processed: self.processed as nat,
            found: self.found as nat,
            downloaded: self.downloaded as nat,
            cached: self.cached as nat,
            skipped: self.skipped as nat,
            current_track: match self.current_track {
                Some(track) => Some(track@),
                None => None,
            },
            logs: self.logs@.map_values(|line: String| line@),
            status: self.status,
            should_quit: self.should_quit,
            paused: self.paused,
            scroll_offset: self.scroll_offset as nat,
        }
    }
}

/// The name under which a path is shown: its final component, or the whole
/// path where it has none.
pub open spec fn shown_name(path: Seq<char>) -> Seq<char> {
    match path_file_name(path) {
        Some(name) => name,
        None => path,
    }
}

impl AppView {
    /// The state with one more log line: the oldest line goes where the log
    /// is full, and the view scrolls back to the newest line.
    pub open spec fn logged(self, line: Seq<char>) -> AppView {
        AppView {
            logs: (if self.logs.len() >= MAX_LOG_LINES {
                self.logs.drop_first()
            } else {
                self.logs
            }).push(line),
            scroll_offset: 0,
            ..self
        }
    }

    /// The state after a message of the worker pool.
    pub open spec fn updated(self, message: WorkerMessage) -> AppView {
        match message {
            WorkerMessage::SessionRestoring => AppView {
                status: Status::Restoring,
                paused: true,
                ..self
            },
            WorkerMessage::CountsRestored { downloaded, cached, skipped, processed } => AppView {
                downloaded: downloaded as nat,
                cached: cached as nat,
                skipped: skipped as nat,
                processed: processed as nat,
                found: downloaded as nat,
                ..self
            },
            WorkerMessage::ScanProgress { files_found } => AppView {
                status: Status::Scanning,
                ..self
            }.logged("Scanning... "@ + decimal(files_found as nat) + " files found"@),
            WorkerMessage::ScanStarted { total_files } => AppView {
                total_files: total_files as nat,
                status: Status::Processing,
                ..self
            }.logged("Scan complete: "@ + decimal(total_files as nat) + " files to process"@),
            WorkerMessage::TrackProcessing { track } => AppView {
                current_track: Some(track.artist@ + " - "@ + track.title@),
                status: Status::Processing,
                ..self
            },
            WorkerMessage::LyricsFound { path } => AppView {
                found: self.found + 1,
                processed: self.processed + 1,
                downloaded: self.downloaded + 1,
                ..self
            }.logged(StatusType::Downloaded.log_line(shown_name(path@))),
            WorkerMessage::LyricsNotFound { path } => AppView {
                processed: self.processed + 1,
                ..self
            }.logged(StatusType::NotFound.log_line(shown_name(path@))),
            WorkerMessage::CacheHit { path } => AppView {
                processed: self.processed + 1,
                cached: self.cached + 1,
                ..self
            }.logged(StatusType::Cached.log_line(shown_name(path@))),
            WorkerMessage::AlreadyHasLrc { path } => AppView {
                skipped: self.skipped + 1,
                ..self
            }.logged(StatusType::Existing.log_line(shown_name(path@))),
            WorkerMessage::Error { path, error } => AppView {
                processed: self.processed + 1,
                ..self
            }.logged(StatusType::Error.log_line(shown_name(path@)) + ": "@ + error@),
            WorkerMessage::LogRestore { filename, status } => self.logged(
                status.log_line(filename@),
            ),
            WorkerMessage::ScanComplete { processed, found } => AppView {
                processed: processed as nat,
                found: found as nat,
                status: Status::Complete,
                current_track: None,
                ..self
            }.logged(
                "Scan complete: "@ + decimal(found as nat) + " lyrics downloaded, "@ + decimal(
                    processed as nat,
                ) + " files total"@,
            ),
        }
    }

    /// What the key tells the worker pool, if anything: `q` and escape
    /// quit, `p` pauses a running pool, `r` resumes a paused one.
    pub open spec fn key_message(self, key: Key) -> Option<UiMessage> {
        if key == Key::Esc || key == Key::Char('q') {
            Some(UiMessage::Quit)
        } else if key == Key::Char('p') && !self.paused {
            Some(UiMessage::Pause)
        } else if key == Key::Char('r') && self.paused {
            Some(UiMessage::Resume)
        } else {
            None
        }
    }

    /// The state after a key.
    pub open spec fn keyed(self, key: Key) -> AppView {
        match self.key_message(key) {
            Some(UiMessage::Quit) => AppView { should_quit: true, ..self },
            Some(UiMessage::Pause) => AppView { paused: true, ..self },
            Some(UiMessage::Resume) => AppView { paused: false, ..self },
            None => self,
        }
    }

    /// Whether the counts that the message raises have room to grow.
    pub open spec fn has_room_for(self, message: WorkerMessage) -> bool {
        match message {
            WorkerMessage::LyricsFound { .. } => self.found < usize::MAX && self.processed
                < usize::MAX && self.downloaded < usize::MAX,
            WorkerMessage::LyricsNotFound { .. } | WorkerMessage::Error { .. } => self.processed
                < usize::MAX,
            WorkerMessage::CacheHit { .. } => self.processed < usize::MAX && self.cached
                < usize::MAX,
            WorkerMessage::AlreadyHasLrc { .. } => self.skipped < usize::MAX,
            _ => true,
        }
    }
}

fn name_to_show(path: &str) -> (name: String)
    ensures
        name@ == shown_name(path@),
{
    match file_name(path) {
        Some(name) => name,
        None => path.to_owned(),
    }
}

impl AppState {
    /// The state before anything has happened.
    pub fn new() -> (state: Self)
        ensures
            state@ == (AppView {
                total_files: 0,
                processed: 0,
                found: 0,
                downloaded: 0,
                cached: 0,
                skipped: 0,
                current_track: None,
                logs: Seq::empty(),
                status: Status::Idle,
                should_quit: false,
                paused: false,
                scroll_offset: 0,
            }),
    {
        let state = AppState {
            total_files: 0,
            processed: 0,
            found: 0,
            downloaded: 0,
            cached: 0,
            skipped: 0,
            current_track: None,
            logs: VecDeque::new(),
            status: Status::Idle,
            should_quit: false,
            paused: false,
            scroll_offset: 0,
        };
        assert(state@.logs =~= Seq::empty());
        state
    }

    /// Changes the state as the message says.
    pub fn update(&mut self, msg: WorkerMessage)
        requires
            old(self)@.has_room_for(msg),
        ensures
            final(self)@ == old(self)@.updated(msg),
    {
        match msg {
            WorkerMessage::SessionRestoring => {
                self.status = Status::Restoring;
                self.paused = true;
            },
            WorkerMessage::CountsRestored { downloaded, cached, skipped, processed } => {
                self.downloaded = downloaded;
                self.cached = cached;
                self.skipped = skipped;
                self.processed = processed;
                self.found = downloaded;
            },
            WorkerMessage::ScanProgress { files_found } => {
                self.status = Status::Scanning;
                let mut line = "Scanning... ".to_owned();
                push_decimal(&mut line, files_found as u64);
                line.append(" files found");
                self.add_log(line);
            },
            WorkerMessage::ScanStarted { total_files } => {
                self.total_files = total_files;
                self.status = Status::Processing;
                let mut line = "Scan complete: ".to_owned();
                push_decimal(&mut line, total_files as u64);
                line.append(" files to process");
                self.add_log(line);
            },
            WorkerMessage::TrackProcessing { track } => {
                let mut shown = track.artist.clone();
                shown.append(" - ");
                shown.append(track.title.as_str());
                self.current_track = Some(shown);
                self.status = Status::Processing;
            },
            WorkerMessage::LyricsFound { path } => {
                self.found += 1;
                self.processed += 1;
                self.downloaded += 1;
                let name = name_to_show(path.as_str());
                self.add_log(StatusType::Downloaded.format_log(name.as_str()));
            },
            WorkerMessage::LyricsNotFound { path } => {
                self.processed += 1;
                let name = name_to_show(path.as_str());
                self.add_log(StatusType::NotFound.format_log(name.as_str()));
            },
            WorkerMessage::CacheHit { path } => {
                self.processed += 1;
                self.cached += 1;
                let name = name_to_show(path.as_str());
                self.add_log(StatusType::Cached.format_log(name.as_str()));
            },
            WorkerMessage::AlreadyHasLrc { path } => {
                self.skipped += 1;
                let name = name_to_show(path.as_str());
                self.add_log(StatusType::Existing.format_log(name.as_str()));
            },
            WorkerMessage::Error { path, error } => {
                self.processed += 1;
                let name = name_to_show(path.as_str());
                let mut line = StatusType::Error.format_log(name.as_str());
                line.append(": ");
                line.append(error.as_str());
                self.add_log(line);
            },
            WorkerMessage::LogRestore { filename, status } => {
                self.add_log(status.format_log(filename.as_str()));
            },
            WorkerMessage::ScanComplete { processed, found } => {
                self.processed = processed;
                self.found = found;
                self.status = Status::Complete;
                self.current_track = None;
                let mut line = "Scan complete: ".to_owned();
                push_decimal(&mut line, found as u64);
                line.append(" lyrics downloaded, ");
                push_decimal(&mut line, processed as u64);
                line.append(" files total");
                self.add_log(line);
            },
        }
    }

    /// Takes a key: changes the state and says what to tell the worker
    /// pool. The screen closes once a quit has been sent.
    pub fn on_key(&mut self, key: Key) -> (sent: Option<UiMessage>)
        ensures
            sent == old(self)@.key_message(key),
            final(self)@ == old(self)@.keyed(key),
    {
        match key {
            Key::Esc | Key::Char('q') => {
                self.should_quit = true;
                Some(UiMessage::Quit)
            },
            Key::Char('p') => {
                if !self.paused {
                    self.paused = true;
                    Some(UiMessage::Pause)
                } else {
                    None
                }
            },
            Key::Char('r') => {
                if self.paused {
                    self.paused = false;
                    Some(UiMessage::Resume)
                } else {
                    None
                }
            },
            _ => None,
        }
    }

    /// Appends a log line; the oldest line goes where the log is full, and
    /// the view scrolls back to the newest line.
    pub fn add_log(&mut self, msg: String)
        ensures
            final(self)@ == old(self)@.logged(msg@),
    {
        if self.logs.len() >= MAX_LOG_LINES {
            self.logs.pop_front();
        }
        self.logs.push_back(msg);
        self.scroll_offset = 0;
        assert(final(self)@.logs =~= old(self)@.logged(msg@).logs);
    }
}

} // verus!
