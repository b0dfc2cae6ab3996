//! The downloader: what to fetch for a platform, and the state machine that
//! decides each step of fetching it.
//!
//! The machine performs nothing itself. Its driver sends the request, creates
//! the destination, reads and appends chunks and marks the file executable,
//! and tells the machine how each of these went; the machine answers with
//! the next thing to do.

use crate::artifact::{ArtifactPath, ArtifactPathView};
use crate::metadata::{VersionMetadata, VersionMetadataView};
use crate::platform::Platform;
use crate::progress::DownloadProgress;
use vstd::prelude::*;

verus! {

/// The client identifier sent with the download request.
pub const USER_AGENT: &'static str = "Lilith Launcher v4";

/// What one download has to fetch, and where to.
#[derive(Clone, Debug, PartialEq, Eq)]
pub struct DownloadRequest {
    pub url: String,
    pub total_size: u64,
    pub destination: ArtifactPath,
    pub mark_executable: bool,
}

/// A download request as contracts see it: its texts as sequences of
/// characters.
pub struct DownloadRequestView {
    pub url: Seq<char>,
    pub total_size: u64,
    pub destination: ArtifactPathView,
    pub mark_executable: bool,
}

impl View for DownloadRequest {
    type V = DownloadRequestView;

    open spec fn view(&self) -> DownloadRequestView {
        DownloadRequestView {
            url: self.url@,
            total_size: self.total_size,
            destination: self.destination@,
            mark_executable: self.mark_executable,
        }
    }
}

/// The download of the release `metadata` for `platform`: the platform's
/// URL and size, and the executable mark where the platform asks for it.
pub open spec fn planned_download(
    metadata: VersionMetadataView,
    platform: Platform,
    destination: ArtifactPathView,
) -> DownloadRequestView {
    DownloadRequestView {
        url: metadata.download.for_platform(platform),
        total_size: metadata.sizes.for_platform(platform),
        destination,
        mark_executable: platform.marks_executable(),
    }
}

impl DownloadRequest {
    /// Plans the download of the release's artifact for `platform` to
    /// `destination`.
    pub fn plan(metadata: &VersionMetadata, platform: Platform, destination: ArtifactPath) -> (request:
        DownloadRequest)
        ensures
            request@ == planned_download(metadata@, platform, destination@),
    {
        DownloadRequest {
            url: metadata.download_url(platform).clone(),
            total_size: metadata.expected_size(platform),
            destination,
            mark_executable: platform.requires_executable_mark(),
        }
    }
}

/// A status of the 2xx class.
pub open spec fn is_success_status(code: u16) -> bool {
    200 <= code < 300
}

/// Trusted, not proved: makes a `reqwest::StatusCode` of `code` with
/// `StatusCode::from_u16` and asks it `StatusCode::is_success`. `from_u16`
/// refuses a number outside 100..=999, which is then no success; of the
/// others `is_success` says whether the code lies in 200..=299. Both
/// together answer `true` exactly for 200..=299.
#[verifier::external_body]
fn status_is_success(code: u16) -> (success: bool)
    ensures
        success == is_success_status(code),
{
    match reqwest::StatusCode::from_u16(code) {
        Ok(status) => status.is_success(),
        Err(_) => false,
    }
}

/// How a download ended when it did not fail.
#[derive(Clone, Copy, Debug, PartialEq, Eq)]
pub enum DownloadOutcome {
    /// The body was appended to the destination, which was marked
    /// executable where the platform asks for it.
    Stored,
    /// The server answered with a status outside the 2xx class. Nothing was
    /// written and no error is raised: the destination does not exist
    /// afterwards.
    Skipped { status: u16 },
}

/// Why a download failed.
#[derive(Clone, Copy, Debug, PartialEq, Eq)]
pub enum DownloadError {
    /// The request could not be sent, or the body broke off.
    Network,
    /// A file is already at the destination. It is left as it is.
    DestinationExists,
    /// The destination could not be created or written for another reason.
    Storage,
    /// The artifact could not be marked executable.
    ExecutableMark,
}

/// Where a download stands.
#[derive(Clone, Copy, Debug, PartialEq, Eq)]
pub enum DownloadPhase {
    /// The request is out; no answer yet.
    AwaitingResponse,
    /// The server answered with success; the destination is being created.
    CreatingDestination,
    /// The destination exists; chunks of the body are appended to it.
    Receiving,
    /// The body is complete; the artifact is being marked executable.
    MarkingExecutable,
    Finished(Result<DownloadOutcome, DownloadError>),
}

/// What the driver tells the machine.
#[derive(Clone, Copy, Debug, PartialEq, Eq)]
pub enum DownloadEvent {
    /// The server answered with this status code.
    Responded { status: u16 },
    /// The request could not be sent or got no answer.
    RequestFailed,
    /// The destination was created, and was not there before.
    DestinationCreated,
    /// The destination could not be created.
    CreateFailed { already_exists: bool },
    /// A chunk of `len` bytes was read and appended to the destination.
    ChunkStored { len: usize },
    /// The body has no further chunk.
    BodyEnded,
    /// Reading the next chunk failed.
    ReadFailed,
    /// Appending a chunk to the destination failed.
    WriteFailed,
    /// The artifact is now executable.
    MarkedExecutable,
    /// Marking the artifact executable failed.
    MarkFailed,
}

/// What the machine asks of the driver.
#[derive(Clone, Copy, Debug, PartialEq, Eq)]
pub enum DownloadAction {
    /// Send a GET request for the URL, identified by `USER_AGENT`.
    SendRequest,
    /// Create the destination file, failing if it is already there.
    CreateDestination,
    /// Read the next chunk of the body and append it to the destination.
    ReceiveChunk,
    /// Show this percentage, then read and append the next chunk.
    ReportProgress { percent: u128 },
    /// Mark the artifact executable.
    MarkExecutable,
    /// The download is over.
    Finish(Result<DownloadOutcome, DownloadError>),
    /// The event does not belong to the current phase and was ignored.
    Nothing,
}

/// The state of one download.
#[derive(Clone, Copy, Debug, PartialEq, Eq)]
pub struct DownloadSession {
    pub phase: DownloadPhase,
    pub progress: DownloadProgress,
    pub mark_executable: bool,
}

impl DownloadSession {
    /// The state in which a download of `total_size` bytes starts.
    pub open spec fn initial(total_size: u64, mark_executable: bool) -> DownloadSession {
        DownloadSession {
            phase: DownloadPhase::AwaitingResponse,
            progress: DownloadProgress { downloaded: 0, total: total_size },
            mark_executable,
        }
    }

    /// The same download in another phase.
    pub open spec fn in_phase(self, phase: DownloadPhase) -> DownloadSession {
        DownloadSession { phase, ..self }
    }

    /// The download brought to its end with `result`.
    pub open spec fn ending(self, result: Result<DownloadOutcome, DownloadError>) -> (
        DownloadSession,
        DownloadAction,
    ) {
        (self.in_phase(DownloadPhase::Finished(result)), DownloadAction::Finish(result))
    }

    /// The state with a further chunk of `len` bytes counted.
    pub open spec fn with_chunk(self, len: usize) -> DownloadSession {
        DownloadSession {
            progress: DownloadProgress {
                downloaded: (self.progress.downloaded + len) as u64,
                total: self.progress.total,
            },
            ..self
        }
    }

    /// The transition of the machine: the state after `event`, and the
    /// action asked for.
    pub open spec fn after(self, event: DownloadEvent) -> (DownloadSession, DownloadAction) {
        match (self.phase, event) {
            (DownloadPhase::AwaitingResponse, DownloadEvent::Responded { status }) => {
                if is_success_status(status) {
                    (
                        self.in_phase(DownloadPhase::CreatingDestination),
                        DownloadAction::CreateDestination,
                    )
                } else {
                    self.ending(Ok(DownloadOutcome::Skipped { status }))
                }
            },
            (DownloadPhase::AwaitingResponse, DownloadEvent::RequestFailed) => self.ending(
                Err(DownloadError::Network),
            ),
            (DownloadPhase::CreatingDestination, DownloadEvent::DestinationCreated) => (
                self.in_phase(DownloadPhase::Receiving),
                DownloadAction::ReceiveChunk,
            ),
            (DownloadPhase::CreatingDestination, DownloadEvent::CreateFailed { already_exists }) => {
                if already_exists {
                    self.ending(Err(DownloadError::DestinationExists))
                } else {
                    self.ending(Err(DownloadError::Storage))
                }
            },
            (DownloadPhase::Receiving, DownloadEvent::ChunkStored { len }) => (
                self.with_chunk(len),
                DownloadAction::ReportProgress {
                    percent: self.with_chunk(len).progress.spec_percent() as u128,
                },
            ),
            (DownloadPhase::Receiving, DownloadEvent::BodyEnded) => {
                if self.mark_executable {
                    (
                        self.in_phase(DownloadPhase::MarkingExecutable),
                        DownloadAction::MarkExecutable,
                    )
                } else {
                    self.ending(Ok(DownloadOutcome::Stored))
                }
            },
            (DownloadPhase::Receiving, DownloadEvent::ReadFailed) => self.ending(
                Err(DownloadError::Network),
            ),
            (DownloadPhase::Receiving, DownloadEvent::WriteFailed) => self.ending(
                Err(DownloadError::Storage),
            ),
            (DownloadPhase::MarkingExecutable, DownloadEvent::MarkedExecutable) => self.ending(
                Ok(DownloadOutcome::Stored),
            ),
            (DownloadPhase::MarkingExecutable, DownloadEvent::MarkFailed) => self.ending(
                Err(DownloadError::ExecutableMark),
            ),
            _ => (self, DownloadAction::Nothing),
        }
    }

    /// Whether the machine can take `event` in its state. A chunk can be
    /// counted only against an announced size above zero, of which a
    /// percentage exists, and only while the byte counter has room for it.
    pub open spec fn admits(self, event: DownloadEvent) -> bool {
        match (self.phase, event) {
            (DownloadPhase::Receiving, DownloadEvent::ChunkStored { len }) => {
                self.progress.total > 0 && self.progress.downloaded + len <= u64::MAX
            },
            _ => true,
        }
    }

    /// Starts the download that `request` describes.
    pub fn begin(request: &DownloadRequest) -> (start: (DownloadSession, DownloadAction))
        ensures
            start.0 == Self::initial(request.total_size, request.mark_executable),
            start.1 == DownloadAction::SendRequest,
    {
        (
            DownloadSession {
                phase: DownloadPhase::AwaitingResponse,
                progress: DownloadProgress::new(request.total_size),
                mark_executable: request.mark_executable,
            },
            DownloadAction::SendRequest,
        )
    }

    /// Tells whether `step` can take `event` now.
    pub fn accepts(&self, event: DownloadEvent) -> (admitted: bool)
        ensures
            admitted == self.admits(event),
    {
        match (self.phase, event) {
            (DownloadPhase::Receiving, DownloadEvent::ChunkStored { len }) => {
                self.progress.total > 0 && len as u64 <= u64::MAX - self.progress.downloaded
            },
            _ => true,
        }
    }

    fn finish(&mut self, result: Result<DownloadOutcome, DownloadError>) -> (action:
        DownloadAction)
        ensures
            (*final(self), action) == old(self).ending(result),
    {
        self.phase = DownloadPhase::Finished(result);
        DownloadAction::Finish(result)
    }

    /// Takes the outcome of the action last asked for and answers with the
    /// next one. An event that does not belong to the current phase changes
    /// nothing.
    pub fn step(&mut self, event: DownloadEvent) -> (action: DownloadAction)
        requires
            old(self).admits(event),
        ensures
            (*final(self), action) == old(self).after(event),
    {
        match (self.phase, event) {
            (DownloadPhase::AwaitingResponse, DownloadEvent::Responded { status }) => {
                if status_is_success(status) {
                    self.phase = DownloadPhase::CreatingDestination;
                    DownloadAction::CreateDestination
                } else {
                    self.finish(Ok(DownloadOutcome::Skipped { status }))
                }
            },
            (DownloadPhase::AwaitingResponse, DownloadEvent::RequestFailed) => self.finish(
                Err(DownloadError::Network),
            ),
            (DownloadPhase::CreatingDestination, DownloadEvent::DestinationCreated) => {
                self.phase = DownloadPhase::Receiving;
                DownloadAction::ReceiveChunk
            },
            (DownloadPhase::CreatingDestination, DownloadEvent::CreateFailed { already_exists }) => {
                if already_exists {
                    self.finish(Err(DownloadError::DestinationExists))
                } else {
                    self.finish(Err(DownloadError::Storage))
                }
            },
            (DownloadPhase::Receiving, DownloadEvent::ChunkStored { len }) => {
                let percent = self.progress.record_chunk(len);
                DownloadAction::ReportProgress { percent }
            },
            (DownloadPhase::Receiving, DownloadEvent::BodyEnded) => {
                if self.mark_executable {
                    self.phase = DownloadPhase::MarkingExecutable;
                    DownloadAction::MarkExecutable
                } else {
                    self.finish(Ok(DownloadOutcome::Stored))
                }
            },
            (DownloadPhase::Receiving, DownloadEvent::ReadFailed) => self.finish(
                Err(DownloadError::Network),
            ),
            (DownloadPhase::Receiving, DownloadEvent::WriteFailed) => self.finish(
                Err(DownloadError::Storage),
            ),
            (DownloadPhase::MarkingExecutable, DownloadEvent::MarkedExecutable) => self.finish(
                Ok(DownloadOutcome::Stored),
            ),
            (DownloadPhase::MarkingExecutable, DownloadEvent::MarkFailed) => self.finish(
                Err(DownloadError::ExecutableMark),
            ),
            _ => DownloadAction::Nothing,
        }
    }

    /// How the download ended, once it has.
    pub fn result(&self) -> (result: Option<Result<DownloadOutcome, DownloadError>>)
        ensures
            result == match self.phase {
                DownloadPhase::Finished(end) => Some(end),
                _ => None,
            },
    {
        match self.phase {
            DownloadPhase::Finished(end) => Some(end),
            _ => None,
        }
    }
}

impl DownloadSession {
    /// The state after the machine has taken `events` one after the other.
    pub open spec fn run(self, events: Seq<DownloadEvent>) -> DownloadSession
        decreases events.len(),
    {
        if events.len() == 0 {
            self
        } else {
            self.run(events.drop_last()).after(events.last()).0
        }
    }

    /// The action with which the machine answers the event at `index` of a
    /// run over `events`.
    pub open spec fn action_at(self, events: Seq<DownloadEvent>, index: int) -> DownloadAction {
        self.run(events.take(index)).after(events[index]).1
    }

    /// Every event of the run is one the machine can take when it comes.
    pub open spec fn admits_run(self, events: Seq<DownloadEvent>) -> bool {
        forall|i: int|
            0 <= i < events.len() ==> #[trigger] self.run(events.take(i)).admits(events[i])
    }

    /// The destination was created at some point among the first `count`
    /// events of the run.
    pub open spec fn created_within(self, events: Seq<DownloadEvent>, count: int) -> bool {
        exists|j: int|
            0 <= j < count && #[trigger] self.run(events.take(j)).phase
                == DownloadPhase::CreatingDestination && events[j]
                == DownloadEvent::DestinationCreated
    }
}

/// An action that reads from or writes to the destination file.
pub open spec fn touches_destination(action: DownloadAction) -> bool {
    action == DownloadAction::ReceiveChunk || action is ReportProgress || action
        == DownloadAction::MarkExecutable
}

proof fn lemma_run_extends(session: DownloadSession, events: Seq<DownloadEvent>, count: int)
    requires
        0 <= count < events.len(),
    ensures
        session.run(events.take(count + 1)) == session.run(events.take(count)).after(
            events[count],
        ).0,
{
    assert(events.take(count + 1).drop_last() == events.take(count));
}

/// A finished download stays as it is: whatever comes, the machine ignores
/// it and asks for nothing.
pub proof fn lemma_finished_is_final(
    session: DownloadSession,
    events: Seq<DownloadEvent>,
    from: int,
    to: int,
)
    requires
        0 <= from <= to <= events.len(),
        session.run(events.take(from)).phase is Finished,
    ensures
        session.run(events.take(to)) == session.run(events.take(from)),
        to < events.len() ==> session.action_at(events, to) == DownloadAction::Nothing,
    decreases to - from,
{
    if from < to {
        lemma_finished_is_final(session, events, from, to - 1);
        lemma_run_extends(session, events, to - 1);
    }
}

/// The destination is created only on a success status: a download that
/// asks for its creation has just been told of a status of the 2xx class.
pub proof fn lemma_creation_needs_success(session: DownloadSession, event: DownloadEvent)
    requires
        session.after(event).1 == DownloadAction::CreateDestination,
    ensures
        session.phase == DownloadPhase::AwaitingResponse,
        event matches DownloadEvent::Responded { status } && is_success_status(status),
{
}

/// A status outside the 2xx class ends the download at once, with nothing
/// written and no error.
pub proof fn lemma_other_status_skips(session: DownloadSession, status: u16)
    requires
        session.phase == DownloadPhase::AwaitingResponse,
        !is_success_status(status),
    ensures
        session.after(DownloadEvent::Responded { status }) == session.ending(
            Ok(DownloadOutcome::Skipped { status }),
        ),
{
}

/// A destination that is already there ends the download with an error, and
/// no action after that touches the file.
pub proof fn lemma_existing_destination_is_kept(
    session: DownloadSession,
    events: Seq<DownloadEvent>,
    refused: int,
    later: int,
)
    requires
        0 <= refused < later < events.len(),
        session.run(events.take(refused)).phase == DownloadPhase::CreatingDestination,
        events[refused] == (DownloadEvent::CreateFailed { already_exists: true }),
    ensures
        session.action_at(events, refused) == DownloadAction::Finish(
            Err(DownloadError::DestinationExists),
        ),
        session.action_at(events, later) == DownloadAction::Nothing,
        session.run(events).phase == DownloadPhase::Finished(
            Err(DownloadError::DestinationExists),
        ),
{
    lemma_run_extends(session, events, refused);
    lemma_finished_is_final(session, events, refused + 1, later);
    lemma_finished_is_final(session, events, refused + 1, events.len() as int);
    assert(events.take(events.len() as int) == events);
}

proof fn lemma_receiving_follows_creation(
    session: DownloadSession,
    events: Seq<DownloadEvent>,
    count: int,
)
    requires
        session.phase == DownloadPhase::AwaitingResponse,
        0 <= count <= events.len(),
    ensures
        session.run(events.take(count)).phase == DownloadPhase::Receiving || session.run(
            events.take(count),
        ).phase == DownloadPhase::MarkingExecutable ==> session.created_within(events, count),
    decreases count,
{
    if count > 0 {
        lemma_receiving_follows_creation(session, events, count - 1);
        lemma_run_extends(session, events, count - 1);
        let before = session.run(events.take(count - 1));
        if before.phase == DownloadPhase::CreatingDestination && events[count - 1]
            == DownloadEvent::DestinationCreated {
            assert(session.created_within(events, count));
        } else if session.created_within(events, count - 1) {
            let j = choose|j: int|
                0 <= j < count - 1 && #[trigger] session.run(events.take(j)).phase
                    == DownloadPhase::CreatingDestination && events[j]
                    == DownloadEvent::DestinationCreated;
            assert(session.created_within(events, count));
        }
    }
}

/// From its start on, a download asks for nothing that touches the
/// destination unless the destination was newly created in this run.
pub proof fn lemma_writes_follow_creation(
    session: DownloadSession,
    events: Seq<DownloadEvent>,
    index: int,
)
    requires
        session.phase == DownloadPhase::AwaitingResponse,
        0 <= index < events.len(),
        touches_destination(session.action_at(events, index)),
    ensures
        session.created_within(events, index + 1),
{
    lemma_receiving_follows_creation(session, events, index);
    let before = session.run(events.take(index));
    if before.phase == DownloadPhase::CreatingDestination {
        assert(events[index] == DownloadEvent::DestinationCreated);
        assert(session.created_within(events, index + 1));
    } else {
        assert(session.created_within(events, index));
        let j = choose|j: int|
            0 <= j < index && #[trigger] session.run(events.take(j)).phase
                == DownloadPhase::CreatingDestination && events[j]
                == DownloadEvent::DestinationCreated;
        assert(session.created_within(events, index + 1));
    }
}

proof fn lemma_counter_grows(
    session: DownloadSession,
    events: Seq<DownloadEvent>,
    fewer: int,
    more: int,
)
    requires
        session.admits_run(events),
        0 <= fewer <= more <= events.len(),
    ensures
        session.run(events.take(more)).progress.total == session.run(
            events.take(fewer),
        ).progress.total,
        session.run(events.take(fewer)).progress.downloaded <= session.run(
            events.take(more),
        ).progress.downloaded,
    decreases more - fewer,
{
    if fewer < more {
        lemma_counter_grows(session, events, fewer, more - 1);
        lemma_run_extends(session, events, more - 1);
        assert(session.run(events.take(more - 1)).admits(events[more - 1]));
    }
}

/// In the course of one download the percentages that the machine asks to
/// be shown never decrease.
pub proof fn lemma_progress_never_decreases(
    session: DownloadSession,
    events: Seq<DownloadEvent>,
    earlier: int,
    later: int,
)
    requires
        session.progress.total > 0,
        session.admits_run(events),
        0 <= earlier <= later < events.len(),
        session.action_at(events, earlier) is ReportProgress,
        session.action_at(events, later) is ReportProgress,
    ensures
        session.action_at(events, earlier)->percent <= session.action_at(events, later)->percent,
{
    lemma_counter_grows(session, events, 0, earlier + 1);
    lemma_counter_grows(session, events, earlier + 1, later + 1);
    lemma_counter_grows(session, events, earlier, earlier + 1);
    lemma_counter_grows(session, events, later, later + 1);
    lemma_run_extends(session, events, earlier);
    lemma_run_extends(session, events, later);
    assert(events.take(0) == Seq::<DownloadEvent>::empty());
    assert(session.run(events.take(earlier)).admits(events[earlier]));
    assert(session.run(events.take(later)).admits(events[later]));
    let first = session.run(events.take(earlier + 1)).progress;
    let second = session.run(events.take(later + 1)).progress;
    crate::progress::lemma_percent_monotonic(
        first.downloaded as nat,
        second.downloaded as nat,
        first.total as nat,
    );
    assert(first.spec_percent() <= u64::MAX * 100) by (nonlinear_arith)
        requires
            first.spec_percent() == first.downloaded * 100 / (first.total as int),
            first.total > 0,
            first.downloaded <= u64::MAX,
    ;
    assert(second.spec_percent() <= u64::MAX * 100) by (nonlinear_arith)
        requires
            second.spec_percent() == second.downloaded * 100 / (second.total as int),
            second.total > 0,
            second.downloaded <= u64::MAX,
    ;
}

/// The chunk that completes the announced size is answered with 100
/// percent.
pub proof fn lemma_last_chunk_reports_hundred(session: DownloadSession, len: usize)
    requires
        session.phase == DownloadPhase::Receiving,
        session.progress.total > 0,
        session.progress.downloaded + len == session.progress.total,
    ensures
        session.after(DownloadEvent::ChunkStored { len }).1 == (DownloadAction::ReportProgress {
            percent: 100,
        }),
{
    crate::progress::lemma_percent_complete(session.progress.total as nat);
}

} // verus!
