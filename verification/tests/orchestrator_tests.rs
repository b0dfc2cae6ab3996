use lilith_launcher::{
    Action, ArtifactPath, ArtifactStore, DownloadError, DownloadOutcome, DownloadRequest, Event,
    FatalError, FetchError, LaunchOutcome, Orchestrator, Phase, Platform, Probe, RawDownloads,
    RawSizes, RawVersionResponse, RunOutcome, SchemaField, VERSIONS_ENDPOINT,
};

fn response() -> RawVersionResponse {
    RawVersionResponse {
        version: Some("4.2.0".to_string()),
        name: Some("Spring release".to_string()),
        changelog: Some("- faster start".to_string()),
        download: Some(RawDownloads {
            windows: Some("http://dl/w/lilith-4.2.0.exe".to_string()),
            linux: Some("http://dl/l/lilith-4.2.0.bin".to_string()),
            macos: Some("http://dl/m/lilith-4.2.0.dmg".to_string()),
        }),
        sizes: Some(RawSizes { windows: Some(100), linux: Some(200), macos: Some(300) }),
    }
}

fn start(platform: Platform) -> Orchestrator {
    let (orchestrator, action) =
        Orchestrator::begin(ArtifactStore::new("/home/ada/lilith".to_string()), platform);
    assert_eq!(action, Action::ProbeDirectory);
    orchestrator
}

fn probing_artifact(platform: Platform) -> Orchestrator {
    let mut orchestrator = start(platform);
    assert_eq!(
        orchestrator.step(Event::DirectoryProbed(Probe::Present)),
        Action::FetchVersion
    );
    assert_eq!(
        orchestrator.step(Event::VersionFetched(Ok(response()))),
        Action::ProbeArtifact
    );
    orchestrator
}

/// Stands in for everything outside the library: a set of directories and
/// files, a versions endpoint, a download server and a launcher. It does what
/// the orchestrator asks and records it.
struct World {
    directories: Vec<String>,
    files: Vec<String>,
    endpoint: Result<RawVersionResponse, FetchError>,
    download: Result<DownloadOutcome, DownloadError>,
    launch: LaunchOutcome,
    done: Vec<String>,
}

impl World {
    fn run(&mut self, platform: Platform) -> RunOutcome {
        let directory = "/home/ada/lilith".to_string();
        let (mut orchestrator, mut action) =
            Orchestrator::begin(ArtifactStore::new(directory.clone()), platform);
        loop {
            let event = match action {
                Action::ProbeDirectory => {
                    if self.directories.contains(&directory) {
                        Event::DirectoryProbed(Probe::Present)
                    } else {
                        Event::DirectoryProbed(Probe::Absent)
                    }
                }
                Action::CreateDirectory => {
                    self.done.push("create directory".to_string());
                    self.directories.push(directory.clone());
                    Event::DirectoryCreated { ok: true }
                }
                Action::FetchVersion => {
                    self.done.push(format!("get {}", VERSIONS_ENDPOINT));
                    let answer = match &self.endpoint {
                        Ok(raw) => Ok(raw.clone()),
                        Err(error) => Err(*error),
                    };
                    Event::VersionFetched(answer)
                }
                Action::ProbeArtifact => {
                    let path = orchestrator.artifact_path().unwrap();
                    if self.files.contains(&path.file_name) {
                        Event::ArtifactProbed(Probe::Present)
                    } else {
                        Event::ArtifactProbed(Probe::Absent)
                    }
                }
                Action::Download => {
                    let request = orchestrator.download_request().unwrap();
                    self.done.push(format!("download {}", request.url));
                    if self.download == Ok(DownloadOutcome::Stored) {
                        self.files.push(request.destination.file_name.clone());
                    }
                    Event::DownloadEnded(self.download)
                }
                Action::Launch => {
                    let path = orchestrator.artifact_path().unwrap();
                    self.done.push(format!("launch {}", path.file_name));
                    Event::LaunchEnded(self.launch)
                }
                Action::Exit(outcome) => {
                    assert_eq!(orchestrator.outcome(), Some(outcome));
                    return outcome;
                }
                Action::Nothing => unreachable!(),
            };
            action = orchestrator.step(event);
        }
    }
}

fn world() -> World {
    World {
        directories: vec!["/home/ada/lilith".to_string()],
        files: Vec::new(),
        endpoint: Ok(response()),
        download: Ok(DownloadOutcome::Stored),
        launch: LaunchOutcome::Success,
        done: Vec::new(),
    }
}

#[test]
fn versions_endpoint_is_fixed() {
    assert_eq!(VERSIONS_ENDPOINT, "http://localhost:8080/versions/latest");
}

#[test]
fn run_begins_with_the_directory_probe() {
    let orchestrator = start(Platform::Linux);
    assert_eq!(orchestrator.phase, Phase::ProbingDirectory);
    assert_eq!(orchestrator.platform, Platform::Linux);
    assert_eq!(orchestrator.store, ArtifactStore::new("/home/ada/lilith".to_string()));
    assert_eq!(orchestrator.metadata, None);
    assert_eq!(orchestrator.artifact_path(), None);
    assert_eq!(orchestrator.download_request(), None);
    assert_eq!(orchestrator.outcome(), None);
}

#[test]
fn present_directory_is_not_created_again() {
    let mut orchestrator = start(Platform::Linux);
    assert_eq!(
        orchestrator.step(Event::DirectoryProbed(Probe::Present)),
        Action::FetchVersion
    );
    assert_eq!(orchestrator.phase, Phase::FetchingVersion);
}

#[test]
fn absent_directory_is_created_before_the_version_check() {
    let mut orchestrator = start(Platform::Linux);
    assert_eq!(
        orchestrator.step(Event::DirectoryProbed(Probe::Absent)),
        Action::CreateDirectory
    );
    assert_eq!(orchestrator.phase, Phase::CreatingDirectory);
    assert_eq!(orchestrator.step(Event::DirectoryCreated { ok: true }), Action::FetchVersion);
    assert_eq!(orchestrator.phase, Phase::FetchingVersion);
}

#[test]
fn directory_that_cannot_be_probed_or_created_is_fatal() {
    let failed = RunOutcome::Failed(FatalError::Directory);
    let mut orchestrator = start(Platform::Linux);
    assert_eq!(orchestrator.step(Event::DirectoryProbed(Probe::Unknown)), Action::Exit(failed));
    assert_eq!(orchestrator.outcome(), Some(failed));
    let mut orchestrator = start(Platform::Linux);
    orchestrator.step(Event::DirectoryProbed(Probe::Absent));
    assert_eq!(orchestrator.step(Event::DirectoryCreated { ok: false }), Action::Exit(failed));
    assert_eq!(orchestrator.phase, Phase::Finished(failed));
}

#[test]
fn ensuring_the_directory_twice_creates_it_once() {
    let mut world = world();
    world.directories.clear();
    assert_eq!(world.run(Platform::Linux), RunOutcome::Launched(LaunchOutcome::Success));
    assert_eq!(world.directories, vec!["/home/ada/lilith".to_string()]);
    assert_eq!(world.done[0], "create directory");
    world.done.clear();
    assert_eq!(world.run(Platform::Linux), RunOutcome::Launched(LaunchOutcome::Success));
    assert_eq!(world.directories, vec!["/home/ada/lilith".to_string()]);
    assert!(!world.done.contains(&"create directory".to_string()));
}

#[test]
fn fetched_release_is_kept_and_its_path_resolved() {
    let orchestrator = probing_artifact(Platform::Macos);
    assert_eq!(orchestrator.phase, Phase::ProbingArtifact);
    assert_eq!(orchestrator.metadata.as_ref().unwrap().version, "4.2.0");
    assert_eq!(orchestrator.metadata.as_ref().unwrap().name, "Spring release");
    assert_eq!(
        orchestrator.artifact_path(),
        Some(ArtifactPath {
            directory: "/home/ada/lilith".to_string(),
            file_name: "lilith-4.2.0.dmg".to_string(),
        })
    );
    assert_eq!(
        orchestrator.download_request(),
        Some(DownloadRequest {
            url: "http://dl/m/lilith-4.2.0.dmg".to_string(),
            total_size: 300,
            destination: ArtifactPath {
                directory: "/home/ada/lilith".to_string(),
                file_name: "lilith-4.2.0.dmg".to_string(),
            },
            mark_executable: true,
        })
    );
}

#[test]
fn path_and_request_follow_the_platform() {
    let orchestrator = probing_artifact(Platform::Windows);
    assert_eq!(orchestrator.artifact_path().unwrap().file_name, "lilith-4.2.0.exe");
    let request = orchestrator.download_request().unwrap();
    assert_eq!(request.url, "http://dl/w/lilith-4.2.0.exe");
    assert_eq!(request.total_size, 100);
    assert!(!request.mark_executable);
    let orchestrator = probing_artifact(Platform::Linux);
    assert_eq!(orchestrator.artifact_path().unwrap().file_name, "lilith-4.2.0.bin");
    assert_eq!(orchestrator.download_request().unwrap().total_size, 200);
}

#[test]
fn failed_request_ends_the_run_without_launch() {
    let failed = RunOutcome::Failed(FatalError::Fetch(FetchError::Network));
    let mut orchestrator = start(Platform::Linux);
    orchestrator.step(Event::DirectoryProbed(Probe::Present));
    assert_eq!(
        orchestrator.step(Event::VersionFetched(Err(FetchError::Network))),
        Action::Exit(failed)
    );
    assert_eq!(orchestrator.metadata, None);
    assert_eq!(orchestrator.step(Event::ArtifactProbed(Probe::Present)), Action::Nothing);
    assert_eq!(orchestrator.step(Event::LaunchEnded(LaunchOutcome::Success)), Action::Nothing);
    assert_eq!(orchestrator.outcome(), Some(failed));
}

#[test]
fn body_that_is_no_document_ends_the_run() {
    let failed = RunOutcome::Failed(FatalError::Fetch(FetchError::Malformed));
    let mut orchestrator = start(Platform::Linux);
    orchestrator.step(Event::DirectoryProbed(Probe::Present));
    assert_eq!(
        orchestrator.step(Event::VersionFetched(Err(FetchError::Malformed))),
        Action::Exit(failed)
    );
}

#[test]
fn response_without_sizes_linux_ends_the_run_with_a_fetch_error() {
    let mut raw = response();
    raw.sizes = Some(RawSizes { windows: Some(100), linux: None, macos: Some(300) });
    let failed = RunOutcome::Failed(FatalError::Fetch(FetchError::MissingField(
        SchemaField::SizesLinux,
    )));
    let mut orchestrator = start(Platform::Windows);
    orchestrator.step(Event::DirectoryProbed(Probe::Present));
    assert_eq!(orchestrator.step(Event::VersionFetched(Ok(raw))), Action::Exit(failed));
    assert_eq!(orchestrator.metadata, None);
    assert_eq!(orchestrator.artifact_path(), None);
    assert_eq!(orchestrator.download_request(), None);
}

#[test]
fn present_artifact_is_launched_without_download() {
    let mut orchestrator = probing_artifact(Platform::Linux);
    assert_eq!(orchestrator.step(Event::ArtifactProbed(Probe::Present)), Action::Launch);
    assert_eq!(orchestrator.phase, Phase::Launching);
    assert_eq!(
        orchestrator.step(Event::DownloadEnded(Ok(DownloadOutcome::Stored))),
        Action::Nothing
    );
}

#[test]
fn absent_artifact_is_downloaded_then_launched() {
    let mut orchestrator = probing_artifact(Platform::Linux);
    assert_eq!(orchestrator.step(Event::ArtifactProbed(Probe::Absent)), Action::Download);
    assert_eq!(orchestrator.phase, Phase::Downloading);
    assert_eq!(
        orchestrator.step(Event::DownloadEnded(Ok(DownloadOutcome::Stored))),
        Action::Launch
    );
    assert_eq!(orchestrator.phase, Phase::Launching);
}

#[test]
fn artifact_whose_existence_is_unknown_ends_the_run() {
    let failed = RunOutcome::Failed(FatalError::ArtifactProbe);
    let mut orchestrator = probing_artifact(Platform::Linux);
    assert_eq!(orchestrator.step(Event::ArtifactProbed(Probe::Unknown)), Action::Exit(failed));
}

#[test]
fn skipped_download_is_followed_by_the_launch() {
    let mut orchestrator = probing_artifact(Platform::Linux);
    orchestrator.step(Event::ArtifactProbed(Probe::Absent));
    assert_eq!(
        orchestrator.step(Event::DownloadEnded(Ok(DownloadOutcome::Skipped { status: 503 }))),
        Action::Launch
    );
}

#[test]
fn each_download_error_ends_the_run() {
    for error in [
        DownloadError::Network,
        DownloadError::DestinationExists,
        DownloadError::Storage,
        DownloadError::ExecutableMark,
    ] {
        let mut orchestrator = probing_artifact(Platform::Macos);
        orchestrator.step(Event::ArtifactProbed(Probe::Absent));
        let failed = RunOutcome::Failed(FatalError::Download(error));
        assert_eq!(orchestrator.step(Event::DownloadEnded(Err(error))), Action::Exit(failed));
        assert_eq!(orchestrator.outcome(), Some(failed));
    }
}

#[test]
fn launch_outcome_ends_the_run() {
    for outcome in [
        LaunchOutcome::Success,
        LaunchOutcome::Relaunched,
        LaunchOutcome::RemovalFailed,
        LaunchOutcome::RelaunchFailed,
    ] {
        let mut orchestrator = probing_artifact(Platform::Linux);
        orchestrator.step(Event::ArtifactProbed(Probe::Present));
        assert_eq!(
            orchestrator.step(Event::LaunchEnded(outcome)),
            Action::Exit(RunOutcome::Launched(outcome))
        );
        assert_eq!(orchestrator.outcome(), Some(RunOutcome::Launched(outcome)));
    }
}

#[test]
fn orchestrator_events_out_of_turn_change_nothing() {
    let mut orchestrator = start(Platform::Linux);
    assert_eq!(orchestrator.step(Event::VersionFetched(Ok(response()))), Action::Nothing);
    assert_eq!(orchestrator.step(Event::DirectoryCreated { ok: true }), Action::Nothing);
    assert_eq!(orchestrator.step(Event::ArtifactProbed(Probe::Absent)), Action::Nothing);
    assert_eq!(orchestrator.step(Event::LaunchEnded(LaunchOutcome::Success)), Action::Nothing);
    assert_eq!(orchestrator.phase, Phase::ProbingDirectory);
    assert_eq!(orchestrator.metadata, None);
    let mut orchestrator = probing_artifact(Platform::Linux);
    assert_eq!(orchestrator.step(Event::DirectoryProbed(Probe::Absent)), Action::Nothing);
    assert_eq!(orchestrator.step(Event::VersionFetched(Err(FetchError::Network))), Action::Nothing);
    assert_eq!(orchestrator.phase, Phase::ProbingArtifact);
    assert_eq!(orchestrator.metadata.as_ref().unwrap().version, "4.2.0");
}

#[test]
fn run_with_present_artifact_never_calls_the_downloader() {
    let mut world = world();
    world.files.push("lilith-4.2.0.bin".to_string());
    assert_eq!(world.run(Platform::Linux), RunOutcome::Launched(LaunchOutcome::Success));
    assert_eq!(
        world.done,
        vec!["get http://localhost:8080/versions/latest", "launch lilith-4.2.0.bin"]
    );
}

#[test]
fn run_with_absent_artifact_downloads_once_then_launches() {
    let mut world = world();
    assert_eq!(world.run(Platform::Macos), RunOutcome::Launched(LaunchOutcome::Success));
    assert_eq!(
        world.done,
        vec![
            "get http://localhost:8080/versions/latest",
            "download http://dl/m/lilith-4.2.0.dmg",
            "launch lilith-4.2.0.dmg",
        ]
    );
    world.done.clear();
    assert_eq!(world.run(Platform::Macos), RunOutcome::Launched(LaunchOutcome::Success));
    assert_eq!(
        world.done,
        vec!["get http://localhost:8080/versions/latest", "launch lilith-4.2.0.dmg"]
    );
}

#[test]
fn run_with_new_content_under_an_old_file_name_downloads_nothing() {
    let mut world = world();
    world.files.push("lilith-4.2.0.exe".to_string());
    let mut newer = response();
    newer.version = Some("4.3.0".to_string());
    newer.download.as_mut().unwrap().windows =
        Some("http://mirror/elsewhere/lilith-4.2.0.exe".to_string());
    world.endpoint = Ok(newer);
    assert_eq!(world.run(Platform::Windows), RunOutcome::Launched(LaunchOutcome::Success));
    assert_eq!(
        world.done,
        vec!["get http://localhost:8080/versions/latest", "launch lilith-4.2.0.exe"]
    );
}

#[test]
fn run_with_error_status_launches_a_path_that_was_never_created() {
    let mut world = world();
    world.download = Ok(DownloadOutcome::Skipped { status: 500 });
    world.launch = LaunchOutcome::Relaunched;
    assert_eq!(world.run(Platform::Linux), RunOutcome::Launched(LaunchOutcome::Relaunched));
    assert!(world.files.is_empty());
    assert_eq!(
        world.done,
        vec![
            "get http://localhost:8080/versions/latest",
            "download http://dl/l/lilith-4.2.0.bin",
            "launch lilith-4.2.0.bin",
        ]
    );
}

#[test]
fn run_with_schema_violation_launches_nothing() {
    let mut world = world();
    let mut raw = response();
    raw.download.as_mut().unwrap().linux = None;
    world.endpoint = Ok(raw);
    assert_eq!(
        world.run(Platform::Linux),
        RunOutcome::Failed(FatalError::Fetch(FetchError::MissingField(
            SchemaField::DownloadLinux
        )))
    );
    assert_eq!(world.done, vec!["get http://localhost:8080/versions/latest"]);
}

#[test]
fn run_with_failed_download_launches_nothing() {
    let mut world = world();
    world.download = Err(DownloadError::Network);
    assert_eq!(
        world.run(Platform::Linux),
        RunOutcome::Failed(FatalError::Download(DownloadError::Network))
    );
    assert_eq!(
        world.done,
        vec![
            "get http://localhost:8080/versions/latest",
            "download http://dl/l/lilith-4.2.0.bin",
        ]
    );
}
