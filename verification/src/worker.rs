//! The worker pool's decisions.
//!
//! The pool itself runs elsewhere: tasks, channels, the rate limiter, the
//! file system and the network are not in this library. What is here is
//! every decision the pool takes. A [`PoolState`] holds what the workers
//! share; an [`ItemFlow`] takes one file through its pipeline, step by step:
//! the caller performs the request of a step and comes back with the event.

use vstd::prelude::*;
use std::collections::VecDeque;
use crate::api::types::LyricsResponse;
use crate::api::SearchResult;
use crate::cache::signature::{fingerprint, SignatureView, TrackSignature};
use crate::messages::{UiMessage, WorkerMessage};
use crate::paths::{file_name, path_file_name};
use crate::scanner::has_lrc_sidecar;
use crate::scanner::metadata::Track;
use crate::session::{keep_last, LogEntry, PersistentSession, StatusType, MAX_LOG_HISTORY};

verus! {

/// Searches per second that the rate limiter lets through.
pub const RATE_LIMIT_PER_SEC: u32 = 10;

/// Workers that run side by side.
pub const MAX_CONCURRENT_WORKERS: usize = 5;

/// How long a paused worker sleeps before it looks again, in milliseconds.
pub const PAUSE_POLL_MILLIS: u64 = 100;

/// The name logged for a file whose path has no final component.
pub const UNKNOWN_FILE_NAME: &'static str = "unknown";

/// Where one file stands in its pipeline.
#[derive(Debug)]
pub enum ItemStage {
    /// Its metadata is being read.
    Metadata,
    /// The negative cache is being asked.
    Cache { track: Track, signature: String },
    /// The catalog is being searched.
    Search { signature: String },
    /// The lyrics are being written beside the file.
    Write,
    /// The miss is being added to the negative cache.
    Remember,
    /// Nothing is left to do.
    Done,
}

/// One file on its way through the pipeline.
#[derive(Debug)]
pub struct ItemFlow {
    pub path: String,
    /// The name under which the file appears in the log.
    pub filename: String,
    /// Whether the negative cache is passed over.
    pub force_retry: bool,
    pub stage: ItemStage,
}

/// What the caller did for the last request.
#[derive(Debug)]
pub enum ItemEvent {
    MetadataRead(Result<Track, String>),
    CacheLookedUp(Result<bool, String>),
    Searched(Result<SearchResult, String>),
    Written(Result<(), String>),
    Remembered(Result<(), String>),
}

/// What the caller is to do next for the file.
#[derive(Debug)]
pub enum ItemRequest {
    /// Read the file's metadata.
    ReadMetadata { path: String },
    /// Ask the negative cache for the fingerprint.
    LookUpCache { signature: String },
    /// Wait for the rate limiter, then search the catalog for the track.
    Search { track: Track },
    /// Write the lyrics beside the file, over what may be there.
    WriteLyrics { path: String, lyrics: String },
    /// Add the fingerprint to the negative cache.
    RememberMiss { signature: String },
    /// The file is done with.
    Nothing,
}

/// One step of a file's pipeline. The caller sends the messages in order,
/// then records the outcome if there is one, then performs the request. A
/// message that cannot be delivered ends the file there and then: nothing
/// is recorded and the request is not performed.
#[derive(Debug)]
pub struct ItemStep {
    pub flow: ItemFlow,
    pub messages: Vec<WorkerMessage>,
    pub outcome: Option<StatusType>,
    pub request: ItemRequest,
}

/// What a worker does next.
#[derive(Debug)]
pub enum WorkerStep {
    /// Leave: the run was cancelled, or the queue is empty.
    Stop,
    /// The run is paused: sleep and ask again.
    Wait,
    /// Process this file.
    Process(String),
}

/// What the coordinator does after a control message.
#[derive(Debug)]
pub struct ControlStep {
    /// The session to write to disk, where a checkpoint is due.
    pub save: Option<PersistentSession>,
    /// Whether the coordinator goes on listening.
    pub listening: bool,
}

/// What the workers of one run share.
#[derive(Debug)]
pub struct PoolState {
    pub session: PersistentSession,
    /// The files still to hand out, first in first out.
    pub queue: VecDeque<String>,
    pub downloaded: usize,
    pub cached: usize,
    pub failed: usize,
    pub existing: usize,
    pub paused: bool,
    pub should_quit: bool,
}

/// The fields a track is fingerprinted by. The duration is taken modulo
/// 2^32.
pub open spec fn track_signature(track: Track) -> SignatureView {
    SignatureView {
        artist: track.artist@,
        title: track.title@,
        album: Some(track.album@),
        duration_sec: (track.duration_secs % 0x1_0000_0000) as nat,
    }
}

/// The name under which a path appears in the log.
pub open spec fn log_name(path: Seq<char>) -> Seq<char> {
    match path_file_name(path) {
        Some(name) => name,
        None => UNKNOWN_FILE_NAME@,
    }
}

/// Whether the file at `index` is flagged. A file without a flag is not.
pub open spec fn is_flagged(flags: Seq<bool>, index: int) -> bool {
    0 <= index < flags.len() && flags[index]
}

/// Those of `files`, in their order, that are flagged, or, with `wanted`
/// false, those that are not.
pub open spec fn pick(files: Seq<String>, flags: Seq<bool>, wanted: bool) -> Seq<String>
    decreases files.len(),
{
    if files.len() == 0 {
        Seq::empty()
    } else if is_flagged(flags, files.len() - 1) == wanted {
        pick(files.drop_last(), flags, wanted).push(files.last())
    } else {
        pick(files.drop_last(), flags, wanted)
    }
}

/// The messages that open a resumed run: the restoring notice, the
/// restored counts, the log entry by entry, and the total.
pub open spec fn resume_messages(session: PersistentSession) -> Seq<WorkerMessage> {
    seq![
        WorkerMessage::SessionRestoring,
        WorkerMessage::CountsRestored {
            downloaded: session.downloaded_count,
            cached: session.cached_count,
            skipped: session.existing_count,
            processed: session.spec_total_processed() as usize,
        },
    ] + Seq::new(
        session.log_history@.len(),
        |i: int|
            WorkerMessage::LogRestore {
                filename: session.log_history@[i].filename,
                status: session.log_history@[i].status,
            },
    ) + seq![
        WorkerMessage::ScanStarted {
            total_files: (session.spec_total_files() + session.existing_count) as usize,
        },
    ]
}

/// The messages that open a fresh run: one for each file that has its
/// lyrics already, and the total.
pub open spec fn fresh_messages(to_process: Seq<String>, with_sidecar: Seq<String>) -> Seq<
    WorkerMessage,
> {
    Seq::new(with_sidecar.len(), |i: int| WorkerMessage::AlreadyHasLrc { path: with_sidecar[i] })
        + seq![
        WorkerMessage::ScanStarted { total_files: (with_sidecar.len() + to_process.len()) as usize },
    ]
}

fn only(message: WorkerMessage) -> (messages: Vec<WorkerMessage>)
    ensures
        messages@ == seq![message],
{
    let mut messages: Vec<WorkerMessage> = Vec::new();
    messages.push(message);
    messages
}

fn copy_track(track: &Track) -> (copy: Track)
    ensures
        copy == *track,
{
    Track {
        path: track.path.clone(),
        artist: track.artist.clone(),
        title: track.title.clone(),
        album: track.album.clone(),
        duration_secs: track.duration_secs,
    }
}

/// The fingerprint of a track: of its artist, title and album as they were
/// read, and of its duration.
pub fn track_fingerprint(track: &Track) -> (signature: String)
    ensures
        signature@ == fingerprint(track_signature(*track)),
{
    let signature = TrackSignature {
        artist: track.artist.clone(),
        title: track.title.clone(),
        album: Some(track.album.clone()),
        duration_sec: (track.duration_secs % 0x1_0000_0000) as u32,
    };
    signature.generate_hash()
}

/// Sorts audio files into those still to process and those whose lyrics
/// lie beside them already, as the flags say: each file lands in exactly one
/// of the two lists, in its place.
pub fn split_by_flags(files: &Vec<String>, has_sidecar: &Vec<bool>) -> (split: (
    Vec<String>,
    Vec<String>,
))
    ensures
        split.0@ == pick(files@, has_sidecar@, false),
        split.1@ == pick(files@, has_sidecar@, true),
{
    let mut to_process: Vec<String> = Vec::new();
    let mut with_sidecar: Vec<String> = Vec::new();
    let mut i: usize = 0;
    while i < files.len()
        invariant
            i <= files.len(),
            to_process@ == pick(files@.take(i as int), has_sidecar@, false),
            with_sidecar@ == pick(files@.take(i as int), has_sidecar@, true),
        decreases files.len() - i,
    {
        assert(files@.take(i + 1).drop_last() == files@.take(i as int));
        if i < has_sidecar.len() && has_sidecar[i] {
            with_sidecar.push(files[i].clone());
        } else {
            to_process.push(files[i].clone());
        }
        i = i + 1;
    }
    assert(files@.take(files.len() as int) == files@);
    (to_process, with_sidecar)
}

/// Sorts the audio files of a scan into those still to process and those
/// whose lyrics lie beside them already. Each file is asked about once, in
/// order; whatever the file system answers of each, the files are sorted by
/// those answers.
pub fn split_by_sidecar(files: &Vec<String>) -> (split: (Vec<String>, Vec<String>))
    ensures
        exists|flags: Seq<bool>|
            flags.len() == files.len() && split.0@ == #[trigger] pick(files@, flags, false)
                && split.1@ == pick(files@, flags, true),
{
    let mut has_sidecar: Vec<bool> = Vec::new();
    let mut i: usize = 0;
    while i < files.len()
        invariant
            i <= files.len(),
            has_sidecar.len() == i,
        decreases files.len() - i,
    {
        has_sidecar.push(has_lrc_sidecar(files[i].as_str()));
        i = i + 1;
    }
    split_by_flags(files, &has_sidecar)
}

impl ItemStage {
    /// How far along the pipeline a stage is.
    pub open spec fn rank(self) -> nat {
        match self {
            ItemStage::Metadata => 0,
            ItemStage::Cache { .. } => 1,
            ItemStage::Search { .. } => 2,
            ItemStage::Write => 3,
            ItemStage::Remember => 3,
            ItemStage::Done => 4,
        }
    }
}

impl ItemStep {
    /// Whether the step ends the file with these messages and this outcome.
    pub open spec fn ends(self, messages: Seq<WorkerMessage>, outcome: Option<StatusType>) -> bool {
        &&& self.flow.stage == ItemStage::Done
        &&& self.messages@ == messages
        &&& self.outcome == outcome
        &&& self.request == ItemRequest::Nothing
    }

    /// Whether the step goes on in silence to this stage with this request.
    pub open spec fn goes_on(self, stage: ItemStage, request: ItemRequest) -> bool {
        &&& self.flow.stage == stage
        &&& self.messages@ == Seq::<WorkerMessage>::empty()
        &&& self.outcome is None
        &&& self.request == request
    }
}

impl ItemFlow {
    /// Takes a file from the queue: its metadata is to be read first.
    pub fn start(path: String, force_retry: bool) -> (begun: (ItemFlow, ItemRequest))
        ensures
            begun.0.path == path,
            begun.0.filename@ == log_name(path@),
            begun.0.force_retry == force_retry,
            begun.0.stage == ItemStage::Metadata,
            begun.1 == (ItemRequest::ReadMetadata { path }),
    {
        let filename = match file_name(path.as_str()) {
            Some(name) => name,
            None => UNKNOWN_FILE_NAME.to_owned(),
        };
        let request = ItemRequest::ReadMetadata { path: path.clone() };
        (ItemFlow { path, filename, force_retry, stage: ItemStage::Metadata }, request)
    }

    fn end(self, messages: Vec<WorkerMessage>, outcome: Option<StatusType>) -> (step: ItemStep)
        ensures
            step.flow.path == self.path,
            step.flow.filename == self.filename,
            step.flow.force_retry == self.force_retry,
            step.ends(messages@, outcome),
    {
        ItemStep {
            flow: ItemFlow {
                path: self.path,
                filename: self.filename,
                force_retry: self.force_retry,
                stage: ItemStage::Done,
            },
            messages,
            outcome,
            request: ItemRequest::Nothing,
        }
    }

    fn fail(self, error: String) -> (step: ItemStep)
        ensures
            step.flow.path == self.path,
            step.flow.filename == self.filename,
            step.flow.force_retry == self.force_retry,
            step.ends(
                seq![WorkerMessage::Error { path: self.path, error }],
                Some(StatusType::Error),
            ),
    {
        let messages = only(WorkerMessage::Error { path: self.path.clone(), error });
        self.end(messages, Some(StatusType::Error))
    }

    fn go_on(self, stage: ItemStage, request: ItemRequest) -> (step: ItemStep)
        ensures
            step.flow.path == self.path,
            step.flow.filename == self.filename,
            step.flow.force_retry == self.force_retry,
            step.goes_on(stage, request),
    {
        ItemStep {
            flow: ItemFlow {
                path: self.path,
                filename: self.filename,
                force_retry: self.force_retry,
                stage,
            },
            messages: Vec::new(),
            outcome: None,
            request,
        }
    }

    /// Takes the file one step on.
    ///
    /// - Metadata that cannot be read is an error of the file.
    /// - Metadata read: the track is announced and fingerprinted; the
    ///   negative cache is asked, or, with `force_retry`, the catalog at
    ///   once.
    /// - A cache hit ends the file as cached; no search is made.
    /// - A match with a synced body is written beside the file; only once
    ///   that has succeeded the file counts as downloaded.
    /// - No match, or one without a synced body, is added to the negative
    ///   cache; only once that has succeeded the file counts as not found.
    /// - A failed search or write is an error of the file.
    /// - A failure of the negative cache, and an event that the stage does
    ///   not wait for, end the file in silence: nothing is sent or recorded.
    ///
    /// Every step takes the file further along, so that no file takes more
    /// than four; an outcome comes with the last step only.
    pub fn advance(self, event: ItemEvent) -> (step: ItemStep)
        ensures
            step.flow.path == self.path,
            step.flow.filename == self.filename,
            step.flow.force_retry == self.force_retry,
            step.flow.stage is Done || step.flow.stage.rank() > self.stage.rank(),
            step.request is Nothing <==> step.flow.stage is Done,
            step.outcome is Some ==> step.flow.stage is Done,
            match (self.stage, event) {
                (ItemStage::Metadata, ItemEvent::MetadataRead(Ok(track))) => {
                    &&& step.messages@ == seq![WorkerMessage::TrackProcessing { track }]
                    &&& step.outcome is None
                    &&& if self.force_retry {
                        &&& step.request == (ItemRequest::Search { track })
                        &&& step.flow.stage matches ItemStage::Search { signature }
                        &&& signature@ == fingerprint(track_signature(track))
                    } else {
                        &&& step.request matches ItemRequest::LookUpCache { signature: asked }
                        &&& asked@ == fingerprint(track_signature(track))
                        &&& step.flow.stage matches ItemStage::Cache { track: kept, signature }
                        &&& kept == track
                        &&& signature@ == fingerprint(track_signature(track))
                    }
                },
                (ItemStage::Metadata, ItemEvent::MetadataRead(Err(error))) => step.ends(
                    seq![WorkerMessage::Error { path: self.path, error }],
                    Some(StatusType::Error),
                ),
                (ItemStage::Cache { track, signature }, ItemEvent::CacheLookedUp(Ok(hit))) => if hit {
                    step.ends(
                        seq![WorkerMessage::CacheHit { path: self.path }],
                        Some(StatusType::Cached),
                    )
                } else {
                    step.goes_on(ItemStage::Search { signature }, ItemRequest::Search { track })
                },
                (ItemStage::Search { signature }, ItemEvent::Searched(Ok(result))) => match result.lyrics() {
                    Some(LyricsResponse { synced_lyrics: Some(lyrics), .. }) => step.goes_on(
                        ItemStage::Write,
                        ItemRequest::WriteLyrics { path: self.path, lyrics },
                    ),
                    _ => step.goes_on(ItemStage::Remember, ItemRequest::RememberMiss { signature }),
                },
                (ItemStage::Search { signature }, ItemEvent::Searched(Err(error))) => step.ends(
                    seq![WorkerMessage::Error { path: self.path, error }],
                    Some(StatusType::Error),
                ),
                (ItemStage::Write, ItemEvent::Written(Ok(done))) => step.ends(
                    seq![WorkerMessage::LyricsFound { path: self.path }],
                    Some(StatusType::Downloaded),
                ),
                (ItemStage::Write, ItemEvent::Written(Err(error))) => step.ends(
                    seq![WorkerMessage::Error { path: self.path, error }],
                    Some(StatusType::Error),
                ),
                (ItemStage::Remember, ItemEvent::Remembered(Ok(done))) => step.ends(
                    seq![WorkerMessage::LyricsNotFound { path: self.path }],
                    Some(StatusType::NotFound),
                ),
                _ => step.ends(Seq::empty(), None),
            },
    {
        let ItemFlow { path, filename, force_retry, stage } = self;
        let flow = ItemFlow { path, filename, force_retry, stage: ItemStage::Done };
        match (stage, event) {
            (ItemStage::Metadata, ItemEvent::MetadataRead(Ok(track))) => {
                let signature = track_fingerprint(&track);
                let messages = only(WorkerMessage::TrackProcessing { track: copy_track(&track) });
                if flow.force_retry {
                    ItemStep {
                        flow: ItemFlow {
                            path: flow.path,
                            filename: flow.filename,
                            force_retry: flow.force_retry,
                            stage: ItemStage::Search { signature },
                        },
                        messages,
                        outcome: None,
                        request: ItemRequest::Search { track },
                    }
                } else {
                    let asked = signature.clone();
                    ItemStep {
                        flow: ItemFlow {
                            path: flow.path,
                            filename: flow.filename,
                            force_retry: flow.force_retry,
                            stage: ItemStage::Cache { track, signature },
                        },
                        messages,
                        outcome: None,
                        request: ItemRequest::LookUpCache { signature: asked },
                    }
                }
            },
            (ItemStage::Metadata, ItemEvent::MetadataRead(Err(error))) => flow.fail(error),
            (ItemStage::Cache { track, signature }, ItemEvent::CacheLookedUp(Ok(hit))) => {
                if hit {
                    let messages = only(WorkerMessage::CacheHit { path: flow.path.clone() });
                    flow.end(messages, Some(StatusType::Cached))
                } else {
                    flow.go_on(ItemStage::Search { signature }, ItemRequest::Search { track })
                }
            },
            (ItemStage::Search { signature }, ItemEvent::Searched(Ok(result))) => {
                match result.into_lyrics() {
                    Some(LyricsResponse { synced_lyrics: Some(lyrics), .. }) => {
                        let request = ItemRequest::WriteLyrics { path: flow.path.clone(), lyrics };
                        flow.go_on(ItemStage::Write, request)
                    },
                    _ => flow.go_on(ItemStage::Remember, ItemRequest::RememberMiss { signature }),
                }
            },
            (ItemStage::Search { signature }, ItemEvent::Searched(Err(error))) => flow.fail(error),
            (ItemStage::Write, ItemEvent::Written(Ok(done))) => {
                let messages = only(WorkerMessage::LyricsFound { path: flow.path.clone() });
                flow.end(messages, Some(StatusType::Downloaded))
            },
            (ItemStage::Write, ItemEvent::Written(Err(error))) => flow.fail(error),
            (ItemStage::Remember, ItemEvent::Remembered(Ok(done))) => {
                let messages = only(WorkerMessage::LyricsNotFound { path: flow.path.clone() });
                flow.end(messages, Some(StatusType::NotFound))
            },
            _ => flow.end(Vec::new(), None),
        }
    }
}

impl PoolState {
    /// Whether `saved` is a checkpoint of this state: the queue as the
    /// pending list, the live counters, the root and the log's most recent
    /// entries.
    pub open spec fn checkpointed_as(self, saved: PersistentSession) -> bool {
        &&& saved.root_path == self.session.root_path
        &&& saved.pending_files@ == self.queue@
        &&& saved.downloaded_count == self.downloaded
        &&& saved.cached_count == self.cached
        &&& saved.existing_count == self.existing
        &&& saved.failed_count == self.failed
        &&& saved.log_history@ == keep_last(self.session.log_history@, MAX_LOG_HISTORY as nat)
    }

    /// Whether this state is the one a run resumes in from `session`:
    /// paused, with the pending list as the queue and the counts restored.
    pub open spec fn resumed_from(self, session: PersistentSession) -> bool {
        &&& self.session == session
        &&& self.queue@ == session.pending_files@
        &&& self.downloaded == session.downloaded_count
        &&& self.cached == session.cached_count
        &&& self.failed == session.failed_count
        &&& self.existing == session.existing_count
        &&& self.paused
        &&& !self.should_quit
    }

    /// Whether two states differ in nothing but the session's pending list
    /// and counters.
    pub open spec fn same_but_session_progress(self, other: PoolState) -> bool {
        &&& self.queue == other.queue
        &&& self.downloaded == other.downloaded
        &&& self.cached == other.cached
        &&& self.failed == other.failed
        &&& self.existing == other.existing
        &&& self.paused == other.paused
        &&& self.should_quit == other.should_quit
        &&& self.session.root_path == other.session.root_path
        &&& self.session.log_history == other.session.log_history
    }

    /// The state in which a run resumes from a saved session, and the
    /// messages that open it. A resumed run starts paused.
    pub fn resume(session: PersistentSession) -> (begun: (PoolState, Vec<WorkerMessage>))
        requires
            session.spec_total_files() + session.existing_count <= usize::MAX,
        ensures
            begun.0.resumed_from(session),
            begun.1@ == resume_messages(session),
    {
        let processed = session.downloaded_count + session.cached_count + session.failed_count;
        let total = processed + session.existing_count + session.pending_files.len();
        let mut messages: Vec<WorkerMessage> = Vec::new();
        messages.push(WorkerMessage::SessionRestoring);
        messages.push(
            WorkerMessage::CountsRestored {
                downloaded: session.downloaded_count,
                cached: session.cached_count,
                skipped: session.existing_count,
                processed,
            },
        );
        let mut i: usize = 0;
        while i < session.log_history.len()
            invariant
                i <= session.log_history.len(),
                messages@ == resume_messages(session).take(2 + i as int),
            decreases session.log_history.len() - i,
        {
            let entry = &session.log_history[i];
            messages.push(
                WorkerMessage::LogRestore {
                    filename: entry.filename.clone(),
                    status: entry.status,
                },
            );
            assert(resume_messages(session).take(2 + i + 1) == resume_messages(session).take(
                2 + i as int,
            ).push(resume_messages(session)[2 + i as int]));
            i = i + 1;
        }
        messages.push(WorkerMessage::ScanStarted { total_files: total });
        assert(messages@ == resume_messages(session));
        let mut queue: VecDeque<String> = VecDeque::new();
        let mut k: usize = 0;
        while k < session.pending_files.len()
            invariant
                k <= session.pending_files.len(),
                queue@ == session.pending_files@.take(k as int),
            decreases session.pending_files.len() - k,
        {
            queue.push_back(session.pending_files[k].clone());
            assert(session.pending_files@.take(k + 1) == session.pending_files@.take(
                k as int,
            ).push(session.pending_files@[k as int]));
            k = k + 1;
        }
        assert(session.pending_files@.take(session.pending_files.len() as int)
            == session.pending_files@);
        let downloaded = session.downloaded_count;
        let cached = session.cached_count;
        let failed = session.failed_count;
        let existing = session.existing_count;
        (
            PoolState {
                session,
                queue,
                downloaded,
                cached,
                failed,
                existing,
                paused: true,
                should_quit: false,
            },
            messages,
        )
    }

    /// The state in which a fresh run starts, and the messages that open
    /// it: `to_process` is the queue, the files of `with_sidecar` count as
    /// existing.
    pub fn fresh(target_dir: String, to_process: Vec<String>, with_sidecar: Vec<String>) -> (begun:
        (PoolState, Vec<WorkerMessage>))
        requires
            to_process.len() + with_sidecar.len() <= usize::MAX,
        ensures
            begun.0.session.root_path == target_dir,
            begun.0.session.pending_files@ == to_process@,
            begun.0.session.log_history@ == Seq::<LogEntry>::empty(),
            begun.0.session.downloaded_count == 0,
            begun.0.session.cached_count == 0,
            begun.0.session.existing_count == 0,
            begun.0.session.failed_count == 0,
            begun.0.queue@ == to_process@,
            begun.0.downloaded == 0,
            begun.0.cached == 0,
            begun.0.failed == 0,
            begun.0.existing == with_sidecar.len(),
            !begun.0.paused,
            !begun.0.should_quit,
            begun.1@ == fresh_messages(to_process@, with_sidecar@),
    {
        let existing = with_sidecar.len();
        let total = existing + to_process.len();
        let mut messages: Vec<WorkerMessage> = Vec::new();
        let mut i: usize = 0;
        while i < with_sidecar.len()
            invariant
                i <= with_sidecar.len(),
                messages@ == fresh_messages(to_process@, with_sidecar@).take(i as int),
            decreases with_sidecar.len() - i,
        {
            messages.push(WorkerMessage::AlreadyHasLrc { path: with_sidecar[i].clone() });
            assert(fresh_messages(to_process@, with_sidecar@).take(i + 1) == fresh_messages(
                to_process@,
                with_sidecar@,
            ).take(i as int).push(fresh_messages(to_process@, with_sidecar@)[i as int]));
            i = i + 1;
        }
        messages.push(WorkerMessage::ScanStarted { total_files: total });
        assert(messages@ == fresh_messages(to_process@, with_sidecar@));
        let mut queue: VecDeque<String> = VecDeque::new();
        let mut k: usize = 0;
        while k < to_process.len()
            invariant
                k <= to_process.len(),
                queue@ == to_process@.take(k as int),
            decreases to_process.len() - k,
        {
            queue.push_back(to_process[k].clone());
            assert(to_process@.take(k + 1) == to_process@.take(k as int).push(
                to_process@[k as int],
            ));
            k = k + 1;
        }
        assert(to_process@.take(to_process.len() as int) == to_process@);
        let session = PersistentSession::new(target_dir, to_process);
        (
            PoolState {
                session,
                queue,
                downloaded: 0,
                cached: 0,
                failed: 0,
                existing,
                paused: false,
                should_quit: false,
            },
            messages,
        )
    }

    /// Brings the session up to date with the run, and hands out the copy
    /// that is to be written to disk: what remains in the queue is what is
    /// pending, and the counts are the live ones.
    pub fn checkpoint(&mut self) -> (saved: PersistentSession)
        ensures
            old(self).checkpointed_as(saved),
            final(self).same_but_session_progress(*old(self)),
            final(self).session.pending_files@ == old(self).queue@,
            final(self).session.downloaded_count == old(self).downloaded,
            final(self).session.cached_count == old(self).cached,
            final(self).session.existing_count == old(self).existing,
            final(self).session.failed_count == old(self).failed,
    {
        let mut pending: Vec<String> = Vec::new();
        let mut i: usize = 0;
        while i < self.queue.len()
            invariant
                i <= self.queue.len(),
                pending@ == self.queue@.take(i as int),
            decreases self.queue.len() - i,
        {
            pending.push(self.queue[i].clone());
            assert(self.queue@.take(i + 1) == self.queue@.take(i as int).push(
                self.queue@[i as int],
            ));
            i = i + 1;
        }
        assert(self.queue@.take(self.queue.len() as int) == self.queue@);
        self.session.pending_files = pending;
        self.session.downloaded_count = self.downloaded;
        self.session.cached_count = self.cached;
        self.session.existing_count = self.existing;
        self.session.failed_count = self.failed;
        self.session.snapshot()
    }

    /// Takes a control message. A pause is followed by a checkpoint, and so
    /// is a quit while paused; a quit while running is not. After a quit the
    /// coordinator listens no more.
    pub fn on_control(&mut self, message: UiMessage) -> (step: ControlStep)
        ensures
            final(self).queue == old(self).queue,
            final(self).downloaded == old(self).downloaded,
            final(self).cached == old(self).cached,
            final(self).failed == old(self).failed,
            final(self).existing == old(self).existing,
            final(self).paused == match message {
                UiMessage::Pause => true,
                UiMessage::Resume => false,
                UiMessage::Quit => old(self).paused,
            },
            final(self).should_quit == (old(self).should_quit || message == UiMessage::Quit),
            step.listening == (message != UiMessage::Quit),
            step.save is Some <==> (message == UiMessage::Pause || (message == UiMessage::Quit
                && old(self).paused)),
            step.save matches Some(saved) ==> old(self).checkpointed_as(saved),
            step.save is Some ==> {
                &&& final(self).session.pending_files@ == old(self).queue@
                &&& final(self).session.downloaded_count == old(self).downloaded
                &&& final(self).session.cached_count == old(self).cached
                &&& final(self).session.existing_count == old(self).existing
                &&& final(self).session.failed_count == old(self).failed
            },
            step.save is None ==> final(self).session == old(self).session,
            final(self).session.root_path == old(self).session.root_path,
            final(self).session.log_history == old(self).session.log_history,
    {
        match message {
            UiMessage::Pause => {
                self.paused = true;
                let saved = self.checkpoint();
                ControlStep { save: Some(saved), listening: true }
            },
            UiMessage::Resume => {
                self.paused = false;
                ControlStep { save: None, listening: true }
            },
            UiMessage::Quit => {
                self.should_quit = true;
                if self.paused {
                    let saved = self.checkpoint();
                    ControlStep { save: Some(saved), listening: false }
                } else {
                    ControlStep { save: None, listening: false }
                }
            },
        }
    }

    /// What a worker does next: it leaves once the run is cancelled, waits
    /// while the run is paused, and else takes the file at the front of the
    /// queue, or leaves where the queue is empty. Files leave the queue in
    /// the order they entered it, and a file that was handed out is not
    /// handed out again.
    pub fn next_task(&mut self) -> (step: WorkerStep)
        ensures
            final(self).session == old(self).session,
            final(self).downloaded == old(self).downloaded,
            final(self).cached == old(self).cached,
            final(self).failed == old(self).failed,
            final(self).existing == old(self).existing,
            final(self).paused == old(self).paused,
            final(self).should_quit == old(self).should_quit,
            step == if old(self).should_quit {
                WorkerStep::Stop
            } else if old(self).paused {
                WorkerStep::Wait
            } else if old(self).queue@.len() > 0 {
                WorkerStep::Process(old(self).queue@[0])
            } else {
                WorkerStep::Stop
            },
            final(self).queue@ == if step is Process {
                old(self).queue@.drop_first()
            } else {
                old(self).queue@
            },
            step matches WorkerStep::Process(path) ==> (old(self).queue@.no_duplicates()
                ==> !final(self).queue@.contains(path)),
    {
        if self.should_quit {
            WorkerStep::Stop
        } else if self.paused {
            WorkerStep::Wait
        } else {
            match self.queue.pop_front() {
                Some(path) => {
                    assert(old(self).queue@.no_duplicates() ==> !old(
                        self,
                    ).queue@.drop_first().contains(path)) by {
                        if old(self).queue@.no_duplicates() && old(
                            self,
                        ).queue@.drop_first().contains(path) {
                            let at = choose|at: int|
                                0 <= at < old(self).queue@.drop_first().len() && old(
                                    self,
                                ).queue@.drop_first()[at] == path;
                            assert(old(self).queue@[at + 1] == old(self).queue@[0]);
                        }
                    }
                    WorkerStep::Process(path)
                },
                None => WorkerStep::Stop,
            }
        }
    }

    /// Records how a file ended: counts it, and appends it to the log,
    /// which keeps its most recent entries. A file that was not found
    /// counts as failed, as does one that met an error.
    pub fn record(&mut self, filename: String, status: StatusType)
        requires
            match status {
                StatusType::Downloaded => old(self).downloaded < usize::MAX,
                StatusType::Cached => old(self).cached < usize::MAX,
                StatusType::Existing => old(self).existing < usize::MAX,
                StatusType::NotFound | StatusType::Error => old(self).failed < usize::MAX,
            },
        ensures
            final(self).downloaded == old(self).downloaded + if status == StatusType::Downloaded {
                1int
            } else {
                0
            },
            final(self).cached == old(self).cached + if status == StatusType::Cached {
                1int
            } else {
                0
            },
            final(self).existing == old(self).existing + if status == StatusType::Existing {
                1int
            } else {
                0
            },
            final(self).failed == old(self).failed + if status == StatusType::NotFound || status
                == StatusType::Error {
                1int
            } else {
                0
            },
            final(self).session.log_history@ == keep_last(
                old(self).session.log_history@.push(LogEntry { filename, status }),
                MAX_LOG_HISTORY as nat,
            ),
            final(self).session.root_path == old(self).session.root_path,
            final(self).session.pending_files == old(self).session.pending_files,
            final(self).session.downloaded_count == old(self).session.downloaded_count,
            final(self).session.cached_count == old(self).session.cached_count,
            final(self).session.existing_count == old(self).session.existing_count,
            final(self).session.failed_count == old(self).session.failed_count,
            final(self).queue == old(self).queue,
            final(self).paused == old(self).paused,
            final(self).should_quit == old(self).should_quit,
    {
        match status {
            StatusType::Downloaded => self.downloaded += 1,
            StatusType::Cached => self.cached += 1,
            StatusType::Existing => self.existing += 1,
            StatusType::NotFound | StatusType::Error => self.failed += 1,
        }
        self.session.add_log(filename, status);
    }

    /// How the run ends once every worker has left. A cancelled run ends
    /// without a word and its session stays on disk. Any other run ends
    /// with the completion message, after which the session is deleted.
    pub fn finish(&self) -> (last: Option<WorkerMessage>)
        requires
            self.downloaded + self.cached + self.failed + self.existing <= usize::MAX,
        ensures
            last == if self.should_quit {
                None
            } else {
                Some(
                    WorkerMessage::ScanComplete {
                        processed: (self.downloaded + self.cached + self.failed
                            + self.existing) as usize,
                        found: self.downloaded,
                    },
                )
            },
    {
        if self.should_quit {
            None
        } else {
            let processed = self.downloaded + self.cached + self.failed;
            Some(
                WorkerMessage::ScanComplete {
                    processed: processed + self.existing,
                    found: self.downloaded,
                },
            )
        }
    }
}

/// A run that is paused, then cancelled, then started again resumes with
/// what the pause found in the queue, in the same order, and with the counts
/// the pause found: the checkpoint of the quit is the checkpoint of the
/// pause as long as nothing was recorded in between, and resuming from a
/// checkpoint restores the queue and the counts it was taken from.
pub proof fn resume_restores_checkpoint(
    paused: PoolState,
    saved: PersistentSession,
    resumed: PoolState,
)
    requires
        paused.checkpointed_as(saved),
        resumed.resumed_from(saved),
    ensures
        resumed.queue@ == paused.queue@,
        resumed.downloaded == paused.downloaded,
        resumed.cached == paused.cached,
        resumed.failed == paused.failed,
        resumed.existing == paused.existing,
        resumed.session.root_path == paused.session.root_path,
        resumed.session.log_history@ == keep_last(
            paused.session.log_history@,
            MAX_LOG_HISTORY as nat,
        ),
        resumed.paused,
{
}

/// Once files have been handed out from a queue that holds no file twice,
/// none of them waits in the queue any more: what a checkpoint saves as
/// pending holds no file that was taken before it.
pub proof fn handed_out_files_leave_the_queue(queue: Seq<String>, taken: int)
    requires
        queue.no_duplicates(),
        0 <= taken <= queue.len(),
    ensures
        forall|i: int| 0 <= i < taken ==> !queue.skip(taken).contains(#[trigger] queue[i]),
{
    assert forall|i: int| 0 <= i < taken implies !queue.skip(taken).contains(
        #[trigger] queue[i],
    ) by {
        if queue.skip(taken).contains(queue[i]) {
            let at = choose|at: int|
                0 <= at < queue.skip(taken).len() && queue.skip(taken)[at] == queue[i];
            assert(queue[taken + at] == queue[i]);
        }
    }
}

} // verus!
