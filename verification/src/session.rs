//! The resumable session: what is still to do, how far the run got, and the
//! recent activity log.

use vstd::prelude::*;
use crate::paths::path_exists;
use crate::text::{copy_strings, push_char};

verus! {

/// Most log entries a session keeps; older ones are dropped first.
pub const MAX_LOG_HISTORY: usize = 500;

/// How many pending files, from the front of the list, the integrity check
/// looks at.
pub const INTEGRITY_CHECK_SAMPLE_SIZE: usize = 10;

/// A session is stale once this many sampled files are missing.
pub const INTEGRITY_CHECK_THRESHOLD: usize = 5;

/// How one file ended.
#[derive(Debug, Clone, Copy, PartialEq, Eq, Structural)]
pub enum StatusType {
    Downloaded,
    Cached,
    Existing,
    NotFound,
    Error,
}

/// One line of the activity log.
#[derive(Debug, Clone)]
pub struct LogEntry {
    pub filename: String,
    pub status: StatusType,
}

/// The durable unit of resumability.
#[derive(Debug, Clone)]
pub struct PersistentSession {
    /// The root directory being scanned.
    pub root_path: String,
    /// The files that still need processing, in the order they will be taken.
    pub pending_files: Vec<String>,
    pub downloaded_count: usize,
    pub cached_count: usize,
    pub existing_count: usize,
    pub failed_count: usize,
    /// The most recent outcomes, oldest first.
    pub log_history: Vec<LogEntry>,
}

/// What becomes of a saved session when the application starts.
#[derive(Debug)]
pub enum Startup {
    /// The session is sound: the run resumes from it.
    Resume(PersistentSession),
    /// The session is stale: its file is deleted and the scan starts afresh.
    Discard,
    /// There is no session to read: the scan starts afresh.
    Fresh,
}

/// The last `limit` entries of `log`, or all of it where it is shorter.
pub open spec fn keep_last<T>(log: Seq<T>, limit: nat) -> Seq<T> {
    if log.len() > limit {
        log.subrange(log.len() - limit, log.len() as int)
    } else {
        log
    }
}

/// How many entries of `found` are `false`.
pub open spec fn missing_count(found: Seq<bool>) -> nat
    decreases found.len(),
{
    if found.len() == 0 {
        0
    } else {
        missing_count(found.drop_last()) + if found.last() { 0nat } else { 1nat }
    }
}

/// How many pending files the integrity check samples.
pub open spec fn sample_len(pending: nat) -> nat {
    if pending < INTEGRITY_CHECK_SAMPLE_SIZE {
        pending
    } else {
        INTEGRITY_CHECK_SAMPLE_SIZE as nat
    }
}

/// The verdict of the integrity check on a session with `pending` pending
/// files, where `found` says of each sampled file whether it is there.
pub open spec fn session_is_valid(pending: nat, found: Seq<bool>) -> bool {
    pending > 0 && missing_count(found) < INTEGRITY_CHECK_THRESHOLD
}

/// What becomes of a loaded session whose sample was found as `found`
/// says.
pub open spec fn startup_for(session: PersistentSession, found: Seq<bool>) -> Startup {
    if session_is_valid(session.pending_files.len() as nat, found) {
        Startup::Resume(session)
    } else {
        Startup::Discard
    }
}

impl Startup {
    /// What becomes of a loaded session, given what the probe of its sample
    /// found: it is resumed from only where it passes the integrity check.
    pub fn judge(session: PersistentSession, found: &Vec<bool>) -> (startup: Startup)
        ensures
            startup == startup_for(session, found@),
    {
        if session.verdict(found) {
            Startup::Resume(session)
        } else {
            Startup::Discard
        }
    }

    /// Decides what becomes of the saved session, if one could be loaded:
    /// its sample is probed on disk and it is judged by what is found.
    pub fn decide(loaded: Option<PersistentSession>) -> (startup: Startup)
        ensures
            loaded is None ==> startup == Startup::Fresh,
            loaded matches Some(session) ==> exists|found: Seq<bool>|
                found.len() == sample_len(session.pending_files.len() as nat) && startup
                    == #[trigger] startup_for(session, found),
    {
        match loaded {
            Some(session) => {
                let found = session.probe_sample();
                Startup::judge(session, &found)
            },
            None => Startup::Fresh,
        }
    }
}

impl StatusType {
    /// The symbol that stands for the status in a log line.
    pub open spec fn symbol(self) -> Seq<char> {
        match self {
            StatusType::Downloaded => "[✓]"@,
            StatusType::Cached => "[~]"@,
            StatusType::Existing => "[○]"@,
            StatusType::NotFound => "[✗]"@,
            StatusType::Error => "[!]"@,
        }
    }

    /// The log line for `filename`: symbol, one space, the name.
    pub open spec fn log_line(self, filename: Seq<char>) -> Seq<char> {
        self.symbol().push(' ') + filename
    }

    pub fn to_symbol(&self) -> (symbol: &'static str)
        ensures
            symbol@ == self.symbol(),
    {
        match self {
            StatusType::Downloaded => "[✓]",
            StatusType::Cached => "[~]",
            StatusType::Existing => "[○]",
            StatusType::NotFound => "[✗]",
            StatusType::Error => "[!]",
        }
    }

    pub fn format_log(&self, filename: &str) -> (line: String)
        ensures
            line@ == self.log_line(filename@),
    {
        let mut line = self.to_symbol().to_owned();
        push_char(&mut line, ' ');
        line.append(filename);
        line
    }
}

impl PersistentSession {
    /// A fresh session: nothing counted, nothing logged.
    pub fn new(root_path: String, pending_files: Vec<String>) -> (session: Self)
        ensures
            session.root_path == root_path,
            session.pending_files == pending_files,
            session.downloaded_count == 0,
            session.cached_count == 0,
            session.existing_count == 0,
            session.failed_count == 0,
            session.log_history@ == Seq::<LogEntry>::empty(),
    {
        PersistentSession {
            root_path,
            pending_files,
            downloaded_count: 0,
            cached_count: 0,
            existing_count: 0,
            failed_count: 0,
            log_history: Vec::new(),
        }
    }

    /// Whether a session file is there. The answer is the file system's.
    pub fn session_exists(path: &str) -> bool {
        path_exists(path)
    }

    /// Asks the file system about each sampled pending file, front first.
    pub fn probe_sample(&self) -> (found: Vec<bool>)
        ensures
            found.len() == sample_len(self.pending_files.len() as nat),
    {
        let sample_size: usize = if self.pending_files.len() < INTEGRITY_CHECK_SAMPLE_SIZE {
            self.pending_files.len()
        } else {
            INTEGRITY_CHECK_SAMPLE_SIZE
        };
        let mut found: Vec<bool> = Vec::new();
        let mut i: usize = 0;
        while i < sample_size
            invariant
                i <= sample_size <= self.pending_files.len(),
                found.len() == i,
            decreases sample_size - i,
        {
            found.push(path_exists(self.pending_files[i].as_str()));
            i = i + 1;
        }
        found
    }

    /// The verdict on this session, given what the probe of its sample found.
    pub fn verdict(&self, found: &Vec<bool>) -> (valid: bool)
        ensures
            valid == session_is_valid(self.pending_files.len() as nat, found@),
    {
        if self.pending_files.len() == 0 {
            return false;
        }
        let mut missing: usize = 0;
        let mut i: usize = 0;
        while i < found.len()
            invariant
                i <= found.len(),
                missing == missing_count(found@.take(i as int)),
                missing <= i,
            decreases found.len() - i,
        {
            assert(found@.take(i + 1).drop_last() == found@.take(i as int));
            if !found[i] {
                missing = missing + 1;
            }
            i = i + 1;
        }
        assert(found@.take(found.len() as int) == found@);
        missing < INTEGRITY_CHECK_THRESHOLD
    }

    /// Shallow integrity check: a session with nothing pending, or with too
    /// many of its first pending files gone from disk, is stale.
    pub fn check_integrity(&self) -> (valid: bool)
        ensures
            exists|found: Seq<bool>|
                found.len() == sample_len(self.pending_files.len() as nat) && valid
                    == #[trigger] session_is_valid(self.pending_files.len() as nat, found),
    {
        let found = self.probe_sample();
        self.verdict(&found)
    }

    /// Appends an entry and drops the oldest ones beyond the limit.
    pub fn add_log(&mut self, filename: String, status: StatusType)
        ensures
            final(self).log_history@ == keep_last(
                old(self).log_history@.push(LogEntry { filename, status }),
                MAX_LOG_HISTORY as nat,
            ),
            final(self).root_path == old(self).root_path,
            final(self).pending_files == old(self).pending_files,
            final(self).downloaded_count == old(self).downloaded_count,
            final(self).cached_count == old(self).cached_count,
            final(self).existing_count == old(self).existing_count,
            final(self).failed_count == old(self).failed_count,
    {
        self.log_history.push(LogEntry { filename, status });
        self.cap_log_history();
    }

    /// Keeps the most recent entries of the log, up to the limit.
    pub fn cap_log_history(&mut self)
        ensures
            final(self).log_history@ == keep_last(old(self).log_history@, MAX_LOG_HISTORY as nat),
            final(self).root_path == old(self).root_path,
            final(self).pending_files == old(self).pending_files,
            final(self).downloaded_count == old(self).downloaded_count,
            final(self).cached_count == old(self).cached_count,
            final(self).existing_count == old(self).existing_count,
            final(self).failed_count == old(self).failed_count,
    {
        let len = self.log_history.len();
        if len > MAX_LOG_HISTORY {
            let recent = self.log_history.split_off(len - MAX_LOG_HISTORY);
            self.log_history = recent;
        }
    }

    /// A copy of the session as it is written to disk: every field as it
    /// is, but for the log, of which the most recent entries are kept, up to
    /// the limit.
    pub fn snapshot(&self) -> (copy: PersistentSession)
        ensures
            copy.root_path == self.root_path,
            copy.pending_files@ == self.pending_files@,
            copy.downloaded_count == self.downloaded_count,
            copy.cached_count == self.cached_count,
            copy.existing_count == self.existing_count,
            copy.failed_count == self.failed_count,
            copy.log_history@ == keep_last(self.log_history@, MAX_LOG_HISTORY as nat),
    {
        let len = self.log_history.len();
        let first: usize = if len > MAX_LOG_HISTORY {
            len - MAX_LOG_HISTORY
        } else {
            0
        };
        let mut log: Vec<LogEntry> = Vec::new();
        let mut i: usize = first;
        while i < len
            invariant
                first <= i <= len,
                len == self.log_history.len(),
                log@ == self.log_history@.subrange(first as int, i as int),
            decreases len - i,
        {
            let entry = &self.log_history[i];
            log.push(LogEntry { filename: entry.filename.clone(), status: entry.status });
            assert(self.log_history@.subrange(first as int, i + 1) == self.log_history@.subrange(
                first as int,
                i as int,
            ).push(self.log_history@[i as int]));
            i = i + 1;
        }
        assert(self.log_history@.subrange(0, len as int) == self.log_history@);
        PersistentSession {
            root_path: self.root_path.clone(),
            pending_files: copy_strings(&self.pending_files),
            downloaded_count: self.downloaded_count,
            cached_count: self.cached_count,
            existing_count: self.existing_count,
            failed_count: self.failed_count,
            log_history: log,
        }
    }

    /// Counts one more file with the given outcome.
    pub fn update_counts(&mut self, status: &StatusType)
        requires
            match *status {
                StatusType::Downloaded => old(self).downloaded_count < usize::MAX,
                StatusType::Cached => old(self).cached_count < usize::MAX,
                StatusType::Existing => old(self).existing_count < usize::MAX,
                StatusType::NotFound | StatusType::Error => old(self).failed_count < usize::MAX,
            },
        ensures
            final(self).downloaded_count == old(self).downloaded_count + if *status
                == StatusType::Downloaded { 1int } else { 0 },
            final(self).cached_count == old(self).cached_count + if *status
                == StatusType::Cached { 1int } else { 0 },
            final(self).existing_count == old(self).existing_count + if *status
                == StatusType::Existing { 1int } else { 0 },
            final(self).failed_count == old(self).failed_count + if *status == StatusType::NotFound
                || *status == StatusType::Error { 1int } else { 0 },
            final(self).root_path == old(self).root_path,
            final(self).pending_files == old(self).pending_files,
            final(self).log_history == old(self).log_history,
    {
        match status {
            StatusType::Downloaded => self.downloaded_count += 1,
            StatusType::Cached => self.cached_count += 1,
            StatusType::Existing => self.existing_count += 1,
            StatusType::NotFound | StatusType::Error => self.failed_count += 1,
        }
    }

    /// The number of files processed so far.
    pub open spec fn spec_total_processed(&self) -> int {
        self.downloaded_count + self.cached_count + self.failed_count
    }

    /// The number of files of the session, pending and processed.
    pub open spec fn spec_total_files(&self) -> int {
        self.pending_files.len() + self.spec_total_processed()
    }

    pub fn total_processed(&self) -> (total: usize)
        requires
            self.spec_total_processed() <= usize::MAX,
        ensures
            total == self.spec_total_processed(),
    {
        self.downloaded_count + self.cached_count + self.failed_count
    }

    pub fn total_files(&self) -> (total: usize)
        requires
            self.spec_total_files() <= usize::MAX,
        ensures
            total == self.spec_total_files(),
    {
        self.pending_files.len() + self.total_processed()
    }
}

/// The integrity check draws its line at the threshold: a session with
/// something pending is stale with that many sampled files missing or
/// more, and sound with fewer.
pub proof fn integrity_threshold(pending: nat, found: Seq<bool>)
    requires
        pending > 0,
    ensures
        missing_count(found) >= INTEGRITY_CHECK_THRESHOLD ==> !session_is_valid(pending, found),
        missing_count(found) < INTEGRITY_CHECK_THRESHOLD ==> session_is_valid(pending, found),
{
}

/// A snapshot never holds more log entries than the limit, and what it
/// holds are the most recent ones, in their order.
pub proof fn kept_log_is_recent<T>(log: Seq<T>, limit: nat)
    ensures
        keep_last(log, limit).len() <= limit,
        keep_last(log, limit).len() <= log.len(),
        forall|i: int|
            0 <= i < keep_last(log, limit).len() ==> #[trigger] keep_last(log, limit)[i] == log[log.len()
                - keep_last(log, limit).len() + i],
        log.len() <= limit ==> keep_last(log, limit) == log,
{
}

} // verus!
