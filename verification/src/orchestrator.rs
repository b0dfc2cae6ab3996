//! The orchestrator: one run of the launcher from start to exit.
//!
//! It sees to the data directory, asks for the latest release, looks whether
//! its artifact is already there, has it downloaded if not, and has it
//! launched: strictly in this order, each step once. Like the machines it
//! directs, it performs nothing itself: its driver does what is asked and
//! reports how it went.

use crate::artifact::{resolved_path, ArtifactPath, ArtifactStore};
use crate::download::{planned_download, DownloadError, DownloadOutcome, DownloadRequest};
use crate::launcher::LaunchOutcome;
use crate::metadata::{FetchError, RawVersionResponse, VersionMetadata, VersionMetadataView};
use crate::platform::Platform;
use vstd::prelude::*;

verus! {

/// The address that answers with the description of the latest release.
pub const VERSIONS_ENDPOINT: &'static str = "http://localhost:8080/versions/latest";

/// The answer of an existence check on the file system.
#[derive(Clone, Copy, Debug, PartialEq, Eq, Structural)]
pub enum Probe {
    Present,
    Absent,
    /// The check itself failed: nothing is known.
    Unknown,
}

/// What ends a run before anything is launched.
#[derive(Clone, Copy, Debug, PartialEq, Eq)]
pub enum FatalError {
    /// The data directory cannot be reached or created.
    Directory,
    /// No release description could be had.
    Fetch(FetchError),
    /// It could not be found out whether the artifact is there.
    ArtifactProbe,
    /// The download failed.
    Download(DownloadError),
}

/// How a run ended.
#[derive(Clone, Copy, Debug, PartialEq, Eq)]
pub enum RunOutcome {
    Launched(LaunchOutcome),
    Failed(FatalError),
}

/// Where a run stands.
#[derive(Clone, Copy, Debug, PartialEq, Eq)]
pub enum Phase {
    ProbingDirectory,
    CreatingDirectory,
    FetchingVersion,
    ProbingArtifact,
    Downloading,
    Launching,
    Finished(RunOutcome),
}

/// What the driver tells the orchestrator.
#[derive(Debug, PartialEq, Eq)]
pub enum Event {
    /// Whether the data directory exists.
    DirectoryProbed(Probe),
    /// The data directory was created, or could not be.
    DirectoryCreated { ok: bool },
    /// The versions endpoint answered with this document, or the request
    /// failed or its body could not be read as a document.
    VersionFetched(Result<RawVersionResponse, FetchError>),
    /// Whether the artifact exists.
    ArtifactProbed(Probe),
    DownloadEnded(Result<DownloadOutcome, DownloadError>),
    LaunchEnded(LaunchOutcome),
}

/// What the orchestrator asks of its driver.
#[derive(Clone, Copy, Debug, PartialEq, Eq)]
pub enum Action {
    /// Check whether the data directory exists.
    ProbeDirectory,
    /// Create the data directory.
    CreateDirectory,
    /// Send one GET request to `VERSIONS_ENDPOINT` and read the answer.
    FetchVersion,
    /// Check whether the file at `artifact_path` exists.
    ProbeArtifact,
    /// Run the download that `download_request` describes.
    Download,
    /// Launch the file at `artifact_path`.
    Launch,
    /// The run is over.
    Exit(RunOutcome),
    /// The event does not belong to the current phase and was ignored.
    Nothing,
}

/// The state of one run.
#[derive(Debug)]
pub struct Orchestrator {
    pub store: ArtifactStore,
    pub platform: Platform,
    pub phase: Phase,
    /// The latest release, from the moment it is known.
    pub metadata: Option<VersionMetadata>,
}

/// The state of a run as contracts see it.
pub struct OrchestratorView {
    pub data_dir: Seq<char>,
    pub platform: Platform,
    pub phase: Phase,
    pub metadata: Option<VersionMetadataView>,
}

impl View for Orchestrator {
    type V = OrchestratorView;

    open spec fn view(&self) -> OrchestratorView {
        OrchestratorView {
            data_dir: self.store@,
            platform: self.platform,
            phase: self.phase,
            metadata: match self.metadata {
                Some(metadata) => Some(metadata@),
                None => None,
            },
        }
    }
}

impl OrchestratorView {
    /// The state in which a run starts.
    pub open spec fn initial(data_dir: Seq<char>, platform: Platform) -> OrchestratorView {
        OrchestratorView { data_dir, platform, phase: Phase::ProbingDirectory, metadata: None }
    }

    /// The same run in another phase.
    pub open spec fn in_phase(self, phase: Phase) -> OrchestratorView {
        OrchestratorView { phase, ..self }
    }

    /// The run brought to its end with `outcome`.
    pub open spec fn ending(self, outcome: RunOutcome) -> (OrchestratorView, Action) {
        (self.in_phase(Phase::Finished(outcome)), Action::Exit(outcome))
    }

    /// The transition of the orchestrator: the state after `event`, and the
    /// action asked for.
    pub open spec fn after(self, event: Event) -> (OrchestratorView, Action) {
        match (self.phase, event) {
            (Phase::ProbingDirectory, Event::DirectoryProbed(Probe::Present)) => (
                self.in_phase(Phase::FetchingVersion),
                Action::FetchVersion,
            ),
            (Phase::ProbingDirectory, Event::DirectoryProbed(Probe::Absent)) => (
                self.in_phase(Phase::CreatingDirectory),
                Action::CreateDirectory,
            ),
            (Phase::ProbingDirectory, Event::DirectoryProbed(Probe::Unknown)) => self.ending(
                RunOutcome::Failed(FatalError::Directory),
            ),
            (Phase::CreatingDirectory, Event::DirectoryCreated { ok }) => {
                if ok {
                    (self.in_phase(Phase::FetchingVersion), Action::FetchVersion)
                } else {
                    self.ending(RunOutcome::Failed(FatalError::Directory))
                }
            },
            (Phase::FetchingVersion, Event::VersionFetched(Ok(raw))) => {
                match raw.checked() {
                    Ok(metadata) => (
                        OrchestratorView {
                            phase: Phase::ProbingArtifact,
                            metadata: Some(metadata),
                            ..self
                        },
                        Action::ProbeArtifact,
                    ),
                    Err(error) => self.ending(RunOutcome::Failed(FatalError::Fetch(error))),
                }
            },
            (Phase::FetchingVersion, Event::VersionFetched(Err(error))) => self.ending(
                RunOutcome::Failed(FatalError::Fetch(error)),
            ),
            (Phase::ProbingArtifact, Event::ArtifactProbed(Probe::Present)) => (
                self.in_phase(Phase::Launching),
                Action::Launch,
            ),
            (Phase::ProbingArtifact, Event::ArtifactProbed(Probe::Absent)) => (
                self.in_phase(Phase::Downloading),
                Action::Download,
            ),
            (Phase::ProbingArtifact, Event::ArtifactProbed(Probe::Unknown)) => self.ending(
                RunOutcome::Failed(FatalError::ArtifactProbe),
            ),
            (Phase::Downloading, Event::DownloadEnded(Ok(_))) => (
                self.in_phase(Phase::Launching),
                Action::Launch,
            ),
            (Phase::Downloading, Event::DownloadEnded(Err(error))) => self.ending(
                RunOutcome::Failed(FatalError::Download(error)),
            ),
            (Phase::Launching, Event::LaunchEnded(outcome)) => self.ending(
                RunOutcome::Launched(outcome),
            ),
            _ => (self, Action::Nothing),
        }
    }

    /// The state after the orchestrator has taken `events` one after the
    /// other.
    pub open spec fn run(self, events: Seq<Event>) -> OrchestratorView
        decreases events.len(),
    {
        if events.len() == 0 {
            self
        } else {
            self.run(events.drop_last()).after(events.last()).0
        }
    }

    /// The action with which the orchestrator answers the event at `index`
    /// of a run over `events`.
    pub open spec fn action_at(self, events: Seq<Event>, index: int) -> Action {
        self.run(events.take(index)).after(events[index]).1
    }

    /// How far a run has come: a step never takes it back.
    pub open spec fn rank(self) -> int {
        match self.phase {
            Phase::ProbingDirectory => 0,
            Phase::CreatingDirectory => 1,
            Phase::FetchingVersion => 2,
            Phase::ProbingArtifact => 3,
            Phase::Downloading => 4,
            Phase::Launching => 5,
            Phase::Finished(_) => 6,
        }
    }
}

impl Orchestrator {
    /// Starts a run for `platform` over the data directory of `store`: the
    /// first thing to do is to look whether that directory exists.
    pub fn begin(store: ArtifactStore, platform: Platform) -> (start: (Orchestrator, Action))
        ensures
            start.0@ == OrchestratorView::initial(store@, platform),
            start.1 == Action::ProbeDirectory,
    {
        (
            Orchestrator { store, platform, phase: Phase::ProbingDirectory, metadata: None },
            Action::ProbeDirectory,
        )
    }

    fn finish(&mut self, outcome: RunOutcome) -> (action: Action)
        ensures
            (final(self)@, action) == old(self)@.ending(outcome),
    {
        self.phase = Phase::Finished(outcome);
        Action::Exit(outcome)
    }

    fn proceed(&mut self, phase: Phase, action: Action) -> (asked: Action)
        ensures
            final(self)@ == old(self)@.in_phase(phase),
            asked == action,
    {
        self.phase = phase;
        action
    }

    /// Takes the outcome of the action last asked for and answers with the
    /// next one. An event that does not belong to the current phase changes
    /// nothing.
    pub fn step(&mut self, event: Event) -> (action: Action)
        ensures
            (final(self)@, action) == old(self)@.after(event),
    {
        match (self.phase, event) {
            (Phase::ProbingDirectory, Event::DirectoryProbed(Probe::Present)) => self.proceed(
                Phase::FetchingVersion,
                Action::FetchVersion,
            ),
            (Phase::ProbingDirectory, Event::DirectoryProbed(Probe::Absent)) => self.proceed(
                Phase::CreatingDirectory,
                Action::CreateDirectory,
            ),
            (Phase::ProbingDirectory, Event::DirectoryProbed(Probe::Unknown)) => self.finish(
                RunOutcome::Failed(FatalError::Directory),
            ),
            (Phase::CreatingDirectory, Event::DirectoryCreated { ok }) => {
                if ok {
                    self.proceed(Phase::FetchingVersion, Action::FetchVersion)
                } else {
                    self.finish(RunOutcome::Failed(FatalError::Directory))
                }
            },
            (Phase::FetchingVersion, Event::VersionFetched(Ok(raw))) => {
                match VersionMetadata::from_raw(raw) {
                    Ok(metadata) => {
                        self.metadata = Some(metadata);
                        self.phase = Phase::ProbingArtifact;
                        Action::ProbeArtifact
                    },
                    Err(error) => self.finish(RunOutcome::Failed(FatalError::Fetch(error))),
                }
            },
            (Phase::FetchingVersion, Event::VersionFetched(Err(error))) => self.finish(
                RunOutcome::Failed(FatalError::Fetch(error)),
            ),
            (Phase::ProbingArtifact, Event::ArtifactProbed(Probe::Present)) => self.proceed(
                Phase::Launching,
                Action::Launch,
            ),
            (Phase::ProbingArtifact, Event::ArtifactProbed(Probe::Absent)) => self.proceed(
                Phase::Downloading,
                Action::Download,
            ),
            (Phase::ProbingArtifact, Event::ArtifactProbed(Probe::Unknown)) => self.finish(
                RunOutcome::Failed(FatalError::ArtifactProbe),
            ),
            (Phase::Downloading, Event::DownloadEnded(Ok(_))) => self.proceed(
                Phase::Launching,
                Action::Launch,
            ),
            (Phase::Downloading, Event::DownloadEnded(Err(error))) => self.finish(
                RunOutcome::Failed(FatalError::Download(error)),
            ),
            (Phase::Launching, Event::LaunchEnded(outcome)) => self.finish(
                RunOutcome::Launched(outcome),
            ),
            _ => Action::Nothing,
        }
    }

    /// The place of the latest release's artifact, once the release is
    /// known.
    pub fn artifact_path(&self) -> (path: Option<ArtifactPath>)
        ensures
            match path {
                Some(path) => self@.metadata is Some && path@ == resolved_path(
                    self@.data_dir,
                    self@.metadata->0,
                    self@.platform,
                ),
                None => self@.metadata is None,
            },
    {
        match &self.metadata {
            Some(metadata) => Some(self.store.resolve_path(metadata, self.platform)),
            None => None,
        }
    }

    /// The download of the latest release's artifact to its place, once the
    /// release is known.
    pub fn download_request(&self) -> (request: Option<DownloadRequest>)
        ensures
            match request {
                Some(request) => self@.metadata is Some && request@ == planned_download(
                    self@.metadata->0,
                    self@.platform,
                    resolved_path(self@.data_dir, self@.metadata->0, self@.platform),
                ),
                None => self@.metadata is None,
            },
    {
        match &self.metadata {
            Some(metadata) => {
                let destination = self.store.resolve_path(metadata, self.platform);
                Some(DownloadRequest::plan(metadata, self.platform, destination))
            },
            None => None,
        }
    }

    /// How the run ended, once it has.
    pub fn outcome(&self) -> (outcome: Option<RunOutcome>)
        ensures
            outcome == match self@.phase {
                Phase::Finished(end) => Some(end),
                _ => None,
            },
    {
        match self.phase {
            Phase::Finished(end) => Some(end),
            _ => None,
        }
    }
}

proof fn lemma_run_extends(state: OrchestratorView, events: Seq<Event>, count: int)
    requires
        0 <= count < events.len(),
    ensures
        state.run(events.take(count + 1)) == state.run(events.take(count)).after(
            events[count],
        ).0,
{
    assert(events.take(count + 1).drop_last() == events.take(count));
}

proof fn lemma_rank_grows(state: OrchestratorView, events: Seq<Event>, fewer: int, more: int)
    requires
        0 <= fewer <= more <= events.len(),
    ensures
        state.run(events.take(fewer)).rank() <= state.run(events.take(more)).rank(),
    decreases more - fewer,
{
    if fewer < more {
        lemma_rank_grows(state, events, fewer, more - 1);
        lemma_run_extends(state, events, more - 1);
    }
}

/// A finished run stays as it is: whatever comes, the orchestrator ignores
/// it and asks for nothing.
pub proof fn lemma_finished_is_final(
    state: OrchestratorView,
    events: Seq<Event>,
    from: int,
    to: int,
)
    requires
        0 <= from <= to <= events.len(),
        state.run(events.take(from)).phase is Finished,
    ensures
        state.run(events.take(to)) == state.run(events.take(from)),
        to < events.len() ==> state.action_at(events, to) == Action::Nothing,
    decreases to - from,
{
    if from < to {
        lemma_finished_is_final(state, events, from, to - 1);
        lemma_run_extends(state, events, to - 1);
    }
}

/// The data directory is created only when it was just found absent; one
/// that is present is never created again, and the run goes on to the
/// version check.
pub proof fn lemma_directory_created_only_when_absent(state: OrchestratorView, event: Event)
    ensures
        state.after(event).1 == Action::CreateDirectory ==> state.phase == Phase::ProbingDirectory
            && event == Event::DirectoryProbed(Probe::Absent),
        state.phase == Phase::ProbingDirectory ==> state.after(
            Event::DirectoryProbed(Probe::Present),
        ) == (state.in_phase(Phase::FetchingVersion), Action::FetchVersion),
{
}

/// An artifact that is present is launched at once; a download is asked for
/// only when the artifact was just found absent.
pub proof fn lemma_present_artifact_skips_download(state: OrchestratorView, event: Event)
    ensures
        state.after(event).1 == Action::Download ==> state.phase == Phase::ProbingArtifact
            && event == Event::ArtifactProbed(Probe::Absent),
        state.phase == Phase::ProbingArtifact ==> state.after(
            Event::ArtifactProbed(Probe::Present),
        ) == (state.in_phase(Phase::Launching), Action::Launch),
{
}

/// In a run in which no existence check finds the artifact absent, no
/// download is ever asked for.
pub proof fn lemma_no_download_without_absence(
    state: OrchestratorView,
    events: Seq<Event>,
    index: int,
)
    requires
        0 <= index < events.len(),
        forall|i: int| 0 <= i < events.len() ==> events[i] != Event::ArtifactProbed(Probe::Absent),
    ensures
        state.action_at(events, index) != Action::Download,
{
    lemma_present_artifact_skips_download(state.run(events.take(index)), events[index]);
}

/// A download that ends without error is followed by the launch, also
/// where the server's status kept anything from being written.
pub proof fn lemma_download_leads_to_launch(state: OrchestratorView, outcome: DownloadOutcome)
    requires
        state.phase == Phase::Downloading,
    ensures
        state.after(Event::DownloadEnded(Ok(outcome))) == (
            state.in_phase(Phase::Launching),
            Action::Launch,
        ),
{
}

/// A version check that fails, or answers with a document that lacks a
/// required field, ends the run with that error: no release is recorded and
/// nothing is asked for afterwards, so nothing is launched.
pub proof fn lemma_failed_fetch_ends_run(
    state: OrchestratorView,
    events: Seq<Event>,
    failure: int,
    later: int,
) -> (error: FetchError)
    requires
        0 <= failure < later < events.len(),
        state.run(events.take(failure)).phase == Phase::FetchingVersion,
        events[failure] matches Event::VersionFetched(answer) && match answer {
            Ok(raw) => raw.first_missing() is Some,
            Err(_) => true,
        },
    ensures
        events[failure] matches Event::VersionFetched(answer) && error == match answer {
            Ok(raw) => FetchError::MissingField(raw.first_missing()->0),
            Err(error) => error,
        },
        state.action_at(events, failure) == Action::Exit(
            RunOutcome::Failed(FatalError::Fetch(error)),
        ),
        state.run(events.take(failure + 1)).metadata == state.run(events.take(failure)).metadata,
        state.action_at(events, later) == Action::Nothing,
{
    lemma_run_extends(state, events, failure);
    lemma_finished_is_final(state, events, failure + 1, later);
    match events[failure] {
        Event::VersionFetched(Ok(raw)) => FetchError::MissingField(raw.first_missing()->0),
        Event::VersionFetched(Err(error)) => error,
        _ => FetchError::Network,
    }
}

/// Nothing is asked for twice in one run: one version check, at most one
/// download, at most one launch, one exit.
pub proof fn lemma_each_action_once(
    data_dir: Seq<char>,
    platform: Platform,
    events: Seq<Event>,
    i: int,
    j: int,
)
    requires
        0 <= i < events.len(),
        0 <= j < events.len(),
        OrchestratorView::initial(data_dir, platform).action_at(events, i)
            == OrchestratorView::initial(data_dir, platform).action_at(events, j),
        OrchestratorView::initial(data_dir, platform).action_at(events, i) != Action::Nothing,
    ensures
        i == j,
{
    let start = OrchestratorView::initial(data_dir, platform);
    lemma_run_extends(start, events, i);
    lemma_run_extends(start, events, j);
    if i < j {
        lemma_rank_grows(start, events, i + 1, j);
    } else if j < i {
        lemma_rank_grows(start, events, j + 1, i);
    }
}

/// From the artifact's existence check on, the release is known: the
/// artifact's path and the download request can be had whenever the
/// orchestrator asks for something that needs them.
pub proof fn lemma_release_known_when_needed(
    data_dir: Seq<char>,
    platform: Platform,
    events: Seq<Event>,
)
    ensures
        ({
            let reached = OrchestratorView::initial(data_dir, platform).run(events);
            reached.phase == Phase::ProbingArtifact || reached.phase == Phase::Downloading
                || reached.phase == Phase::Launching ==> reached.metadata is Some
        }),
        OrchestratorView::initial(data_dir, platform).run(events).data_dir == data_dir,
        OrchestratorView::initial(data_dir, platform).run(events).platform == platform,
    decreases events.len(),
{
    if events.len() > 0 {
        lemma_release_known_when_needed(data_dir, platform, events.drop_last());
    }
}

} // verus!
