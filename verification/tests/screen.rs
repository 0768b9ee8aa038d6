use getlrc::messages::{UiMessage, WorkerMessage};
use getlrc::scanner::metadata::Track;
use getlrc::session::StatusType;
use getlrc::tui::state::{AppState, Key, Status, MAX_LOG_LINES};
use getlrc::tui::widgets::MultiProgress;

fn logs(state: &AppState) -> Vec<String> {
    state.logs.iter().cloned().collect()
}

fn counts(state: &AppState) -> (usize, usize, usize, usize, usize, usize) {
    (state.total_files, state.processed, state.found, state.downloaded, state.cached, state.skipped)
}

#[test]
fn the_screen_starts_idle_and_empty() {
    let state = AppState::new();
    assert_eq!(counts(&state), (0, 0, 0, 0, 0, 0));
    assert_eq!(state.status, Status::Idle);
    assert!(state.current_track.is_none());
    assert!(state.logs.is_empty());
    assert!(!state.should_quit);
    assert!(!state.paused);
    assert_eq!(state.scroll_offset, 0);
}

#[test]
fn restoring_pauses_and_restores_the_counts() {
    let mut state = AppState::new();
    state.update(WorkerMessage::SessionRestoring);
    assert_eq!(state.status, Status::Restoring);
    assert!(state.paused);
    state.update(WorkerMessage::CountsRestored { downloaded: 3, cached: 2, skipped: 4, processed: 6 });
    assert_eq!(counts(&state), (0, 6, 3, 3, 2, 4));
    state.update(WorkerMessage::LogRestore {
        filename: "a.flac".to_string(),
        status: StatusType::Existing,
    });
    assert_eq!(logs(&state), vec!["[○] a.flac"]);
    assert_eq!(counts(&state), (0, 6, 3, 3, 2, 4));
}

#[test]
fn scanning_is_announced_in_the_log() {
    let mut state = AppState::new();
    state.scroll_offset = 9;
    state.update(WorkerMessage::ScanProgress { files_found: 1204 });
    assert_eq!(state.status, Status::Scanning);
    assert_eq!(state.scroll_offset, 0);
    state.update(WorkerMessage::ScanStarted { total_files: 1000 });
    assert_eq!(state.status, Status::Processing);
    assert_eq!(state.total_files, 1000);
    assert_eq!(
        logs(&state),
        vec!["Scanning... 1204 files found", "Scan complete: 1000 files to process"]
    );
}

#[test]
fn the_current_track_is_shown_as_artist_and_title() {
    let mut state = AppState::new();
    state.update(WorkerMessage::TrackProcessing {
        track: Track {
            path: "/music/a.flac".to_string(),
            artist: "Daft Punk".to_string(),
            title: "One More Time".to_string(),
            album: "Discovery".to_string(),
            duration_secs: 320,
        },
    });
    assert_eq!(state.current_track.as_deref(), Some("Daft Punk - One More Time"));
    assert_eq!(state.status, Status::Processing);
    assert!(state.logs.is_empty());
}

#[test]
fn each_outcome_is_counted_and_logged_under_the_file_name() {
    let mut state = AppState::new();
    state.update(WorkerMessage::LyricsFound { path: "/music/a.flac".to_string() });
    assert_eq!(counts(&state), (0, 1, 1, 1, 0, 0));
    state.update(WorkerMessage::LyricsNotFound { path: "/music/b.flac".to_string() });
    assert_eq!(counts(&state), (0, 2, 1, 1, 0, 0));
    state.update(WorkerMessage::CacheHit { path: "/music/c.flac".to_string() });
    assert_eq!(counts(&state), (0, 3, 1, 1, 1, 0));
    state.update(WorkerMessage::AlreadyHasLrc { path: "/music/d.flac".to_string() });
    assert_eq!(counts(&state), (0, 3, 1, 1, 1, 1));
    state.update(WorkerMessage::Error {
        path: "/music/e.flac".to_string(),
        error: "No tags found in audio file".to_string(),
    });
    assert_eq!(counts(&state), (0, 4, 1, 1, 1, 1));
    state.update(WorkerMessage::LyricsFound { path: "/music/..".to_string() });
    assert_eq!(
        logs(&state),
        vec![
            "[✓] a.flac",
            "[✗] b.flac",
            "[~] c.flac",
            "[○] d.flac",
            "[!] e.flac: No tags found in audio file",
            "[✓] /music/..",
        ]
    );
}

#[test]
fn completion_sets_the_totals_and_clears_the_track() {
    let mut state = AppState::new();
    state.current_track = Some("x - y".to_string());
    state.update(WorkerMessage::ScanComplete { processed: 12, found: 7 });
    assert_eq!(state.status, Status::Complete);
    assert_eq!((state.processed, state.found), (12, 7));
    assert!(state.current_track.is_none());
    assert_eq!(logs(&state), vec!["Scan complete: 7 lyrics downloaded, 12 files total"]);
}

#[test]
fn the_screen_keeps_its_most_recent_log_lines() {
    let mut state = AppState::new();
    for i in 0..MAX_LOG_LINES {
        state.add_log(format!("{i}"));
    }
    assert_eq!(state.logs.len(), MAX_LOG_LINES);
    state.scroll_offset = 3;
    state.add_log("last".to_string());
    assert_eq!(state.logs.len(), MAX_LOG_LINES);
    assert_eq!(state.logs[0], "1");
    assert_eq!(state.logs[MAX_LOG_LINES - 1], "last");
    assert_eq!(state.scroll_offset, 0);
}

fn widths(bar: MultiProgress, width: u16) -> Option<(usize, usize, usize, usize)> {
    bar.segments(width).map(|s| (s.downloaded, s.cached, s.skipped, s.empty))
}

#[test]
fn a_bar_in_progress_gives_each_count_its_share() {
    let bar = MultiProgress::new(3, 1, 2, 12, false);
    assert_eq!(widths(bar, 40), Some((10, 3, 6, 21)));
    assert_eq!(widths(MultiProgress::new(50, 50, 50, 100, false), 10), Some((5, 5, 5, 0)));
    assert_eq!(widths(MultiProgress::new(0, 0, 0, 9, false), 7), Some((0, 0, 0, 7)));
}

#[test]
fn a_complete_bar_is_full() {
    assert_eq!(widths(MultiProgress::new(3, 1, 2, 12, true), 40), Some((21, 6, 13, 0)));
    assert_eq!(widths(MultiProgress::new(1, 1, 1, 3, true), 10), Some((4, 3, 3, 0)));
    assert_eq!(widths(MultiProgress::new(0, 0, 0, 5, true), 10), Some((10, 0, 0, 0)));
}

#[test]
fn nothing_is_drawn_without_width_or_files() {
    assert_eq!(widths(MultiProgress::new(1, 1, 1, 3, false), 0), None);
    assert_eq!(widths(MultiProgress::new(0, 0, 0, 0, true), 10), None);
}

#[test]
fn keys_pause_resume_and_quit() {
    let mut state = AppState::new();
    assert_eq!(state.on_key(Key::Char('r')), None);
    assert!(!state.paused);
    assert_eq!(state.on_key(Key::Char('p')), Some(UiMessage::Pause));
    assert!(state.paused);
    assert_eq!(state.on_key(Key::Char('p')), None);
    assert!(state.paused);
    assert_eq!(state.on_key(Key::Char('r')), Some(UiMessage::Resume));
    assert!(!state.paused);
    assert_eq!(state.on_key(Key::Other), None);
    assert_eq!(state.on_key(Key::Char('x')), None);
    assert_eq!(state.on_key(Key::Char('Q')), None);
    assert!(!state.should_quit);
    assert_eq!(state.on_key(Key::Char('q')), Some(UiMessage::Quit));
    assert!(state.should_quit);
    let mut other = AppState::new();
    other.paused = true;
    assert_eq!(other.on_key(Key::Esc), Some(UiMessage::Quit));
    assert!(other.should_quit && other.paused);
}
