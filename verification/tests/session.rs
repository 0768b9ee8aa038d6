use getlrc::session::{
    LogEntry, PersistentSession, Startup, StatusType, INTEGRITY_CHECK_SAMPLE_SIZE,
    INTEGRITY_CHECK_THRESHOLD, MAX_LOG_HISTORY,
};

fn files(count: usize) -> Vec<String> {
    (0..count).map(|i| format!("/nowhere/at/all/{i}.flac")).collect()
}

fn session(pending: usize) -> PersistentSession {
    PersistentSession::new("/nowhere/at/all".to_string(), files(pending))
}

fn found(missing: usize, present: usize) -> Vec<bool> {
    let mut flags = vec![false; missing];
    flags.extend(vec![true; present]);
    flags
}

#[test]
fn a_new_session_has_counted_and_logged_nothing() {
    let s = session(3);
    assert_eq!(s.root_path, "/nowhere/at/all");
    assert_eq!(s.pending_files, files(3));
    assert_eq!(
        (s.downloaded_count, s.cached_count, s.existing_count, s.failed_count),
        (0, 0, 0, 0)
    );
    assert!(s.log_history.is_empty());
    assert_eq!(s.total_processed(), 0);
    assert_eq!(s.total_files(), 3);
}

#[test]
fn counts_follow_the_status() {
    let mut s = session(1);
    s.update_counts(&StatusType::Downloaded);
    s.update_counts(&StatusType::Downloaded);
    s.update_counts(&StatusType::Cached);
    s.update_counts(&StatusType::Existing);
    s.update_counts(&StatusType::NotFound);
    s.update_counts(&StatusType::Error);
    assert_eq!(
        (s.downloaded_count, s.cached_count, s.existing_count, s.failed_count),
        (2, 1, 1, 2)
    );
    assert_eq!(s.total_processed(), 5);
    assert_eq!(s.total_files(), 6);
}

#[test]
fn the_log_keeps_its_most_recent_entries() {
    let mut s = session(1);
    for i in 0..MAX_LOG_HISTORY {
        s.add_log(format!("{i}"), StatusType::Downloaded);
    }
    assert_eq!(s.log_history.len(), MAX_LOG_HISTORY);
    assert_eq!(s.log_history[0].filename, "0");
    s.add_log("last".to_string(), StatusType::Error);
    assert_eq!(s.log_history.len(), MAX_LOG_HISTORY);
    assert_eq!(s.log_history[0].filename, "1");
    assert_eq!(s.log_history[MAX_LOG_HISTORY - 1].filename, "last");
    assert_eq!(s.log_history[MAX_LOG_HISTORY - 1].status, StatusType::Error);
}

#[test]
fn capping_drops_the_oldest_entries() {
    let mut s = session(1);
    for i in 0..(MAX_LOG_HISTORY + 7) {
        s.log_history.push(LogEntry { filename: format!("{i}"), status: StatusType::Cached });
    }
    s.cap_log_history();
    assert_eq!(s.log_history.len(), MAX_LOG_HISTORY);
    assert_eq!(s.log_history[0].filename, "7");
    assert_eq!(s.log_history[MAX_LOG_HISTORY - 1].filename, format!("{}", MAX_LOG_HISTORY + 6));
    s.cap_log_history();
    assert_eq!(s.log_history.len(), MAX_LOG_HISTORY);
    assert_eq!(s.log_history[0].filename, "7");
}

#[test]
fn a_snapshot_keeps_every_field_and_caps_the_log() {
    let mut s = session(4);
    s.downloaded_count = 5;
    s.cached_count = 6;
    s.existing_count = 7;
    s.failed_count = 8;
    for i in 0..(MAX_LOG_HISTORY + 2) {
        s.log_history.push(LogEntry { filename: format!("{i}"), status: StatusType::NotFound });
    }
    let copy = s.snapshot();
    assert_eq!(copy.root_path, s.root_path);
    assert_eq!(copy.pending_files, s.pending_files);
    assert_eq!(
        (copy.downloaded_count, copy.cached_count, copy.existing_count, copy.failed_count),
        (5, 6, 7, 8)
    );
    assert_eq!(copy.log_history.len(), MAX_LOG_HISTORY);
    assert_eq!(copy.log_history[0].filename, "2");
    assert_eq!(copy.log_history[0].status, StatusType::NotFound);
    assert_eq!(s.log_history.len(), MAX_LOG_HISTORY + 2);

    let short = session(2).snapshot();
    assert_eq!(short.pending_files, files(2));
    assert!(short.log_history.is_empty());
}

#[test]
fn symbols_and_log_lines() {
    assert_eq!(StatusType::Downloaded.to_symbol(), "[✓]");
    assert_eq!(StatusType::Cached.to_symbol(), "[~]");
    assert_eq!(StatusType::Existing.to_symbol(), "[○]");
    assert_eq!(StatusType::NotFound.to_symbol(), "[✗]");
    assert_eq!(StatusType::Error.to_symbol(), "[!]");
    assert_eq!(StatusType::Downloaded.format_log("a.flac"), "[✓] a.flac");
    assert_eq!(StatusType::Error.format_log(""), "[!] ");
}

#[test]
fn a_sample_with_fewer_missing_files_than_the_threshold_passes() {
    assert_eq!(INTEGRITY_CHECK_SAMPLE_SIZE, 10);
    assert_eq!(INTEGRITY_CHECK_THRESHOLD, 5);
    let s = session(12);
    assert!(s.verdict(&found(0, 10)));
    assert!(s.verdict(&found(4, 6)));
    assert!(!s.verdict(&found(5, 5)));
    assert!(!s.verdict(&found(10, 0)));
    let small = session(3);
    assert!(small.verdict(&found(3, 0)));
    assert!(small.verdict(&found(0, 3)));
}

#[test]
fn a_session_with_nothing_pending_is_stale() {
    let s = session(0);
    assert!(!s.verdict(&found(0, 0)));
    assert!(!s.check_integrity());
    assert!(s.probe_sample().is_empty());
}

#[test]
fn the_sample_is_the_front_of_the_pending_list() {
    assert_eq!(session(3).probe_sample(), vec![false, false, false]);
    assert_eq!(session(25).probe_sample().len(), INTEGRITY_CHECK_SAMPLE_SIZE);
    let mut s = session(6);
    s.pending_files[0] = "/".to_string();
    s.pending_files[5] = "/".to_string();
    assert_eq!(s.probe_sample(), vec![true, false, false, false, false, true]);
}

#[test]
fn integrity_goes_by_the_files_on_disk() {
    assert!(!session(5).check_integrity());
    assert!(session(4).check_integrity());
    let mut s = session(10);
    for i in 0..6 {
        s.pending_files[i] = "/".to_string();
    }
    assert!(s.check_integrity());
    s.pending_files[0] = "/nowhere/at/all/0.flac".to_string();
    assert!(!s.check_integrity());
}

#[test]
fn a_missing_session_file_is_not_there() {
    assert!(!PersistentSession::session_exists("/nowhere/at/all/session.json"));
    assert!(PersistentSession::session_exists("/"));
}

#[test]
fn startup_resumes_only_from_a_sound_session() {
    assert!(matches!(Startup::decide(None), Startup::Fresh));
    assert!(matches!(Startup::decide(Some(session(0))), Startup::Discard));
    assert!(matches!(Startup::decide(Some(session(7))), Startup::Discard));
    match Startup::decide(Some(session(2))) {
        Startup::Resume(s) => assert_eq!(s.pending_files, files(2)),
        _ => panic!("a session with fewer missing files than the threshold is sound"),
    }
}

#[test]
fn a_loaded_session_is_judged_by_its_sample() {
    assert!(matches!(Startup::judge(session(10), &found(4, 6)), Startup::Resume(_)));
    assert!(matches!(Startup::judge(session(10), &found(5, 5)), Startup::Discard));
    assert!(matches!(Startup::judge(session(0), &found(0, 0)), Startup::Discard));
    match Startup::judge(session(3), &found(0, 3)) {
        Startup::Resume(s) => assert_eq!(s.pending_files, files(3)),
        _ => panic!("a session with every sampled file in place is sound"),
    }
}
