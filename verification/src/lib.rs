//! Decision logic of a self-updating launcher.
//!
//! The launcher asks a versions endpoint for the latest release, downloads the
//! build for the running platform when it is not yet in the per-user data
//! directory, and starts it. This crate holds every decision of that flow as
//! verified state machines and pure functions; performing the requested
//! actions (network, file system, child processes, terminal output) is left to
//! the program that drives them.

pub mod artifact;
pub mod download;
pub mod launcher;
pub mod metadata;
pub mod orchestrator;
pub mod platform;
pub mod progress;

pub use artifact::{file_name_of_url, ArtifactPath, ArtifactStore, DATA_DIRECTORY_NAME};
pub use download::{
    DownloadAction, DownloadError, DownloadEvent, DownloadOutcome, DownloadPhase, DownloadRequest,
    DownloadSession, USER_AGENT,
};
pub use launcher::{
    LaunchAction, LaunchEvent, LaunchOutcome, LaunchPhase, Launcher, CONFIRMATION_FLAG,
};
pub use metadata::{
    Downloads, FetchError, RawDownloads, RawSizes, RawVersionResponse, SchemaField, Sizes,
    VersionMetadata,
};
pub use orchestrator::{
    Action, Event, FatalError, Orchestrator, Phase, Probe, RunOutcome, VERSIONS_ENDPOINT,
};
pub use platform::Platform;
pub use progress::DownloadProgress;
