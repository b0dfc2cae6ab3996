use lilith_launcher::{
    LaunchAction, LaunchEvent, LaunchOutcome, LaunchPhase, Launcher, CONFIRMATION_FLAG,
};

/// Stands in for the system a driver works on: an artifact that may be
/// there and may be startable, and a record of what was done.
struct Stub {
    artifact_present: bool,
    artifact_runs: bool,
    removal_works: bool,
    relaunch_works: bool,
    exit_code: Option<i32>,
    done: Vec<String>,
}

impl Stub {
    fn launch(&mut self) -> LaunchOutcome {
        let (mut launcher, mut action) = Launcher::begin();
        loop {
            let event = match action {
                LaunchAction::Spawn => {
                    self.done.push(format!("spawn {}", CONFIRMATION_FLAG));
                    if self.artifact_present && self.artifact_runs {
                        LaunchEvent::ChildExited { code: self.exit_code }
                    } else {
                        LaunchEvent::SpawnFailed
                    }
                }
                LaunchAction::RemoveArtifact => {
                    if !self.artifact_present {
                        LaunchEvent::ArtifactAbsent
                    } else if self.removal_works {
                        self.done.push("remove".to_string());
                        self.artifact_present = false;
                        LaunchEvent::ArtifactRemoved
                    } else {
                        LaunchEvent::RemoveFailed
                    }
                }
                LaunchAction::RelaunchSelf => {
                    self.done.push("relaunch".to_string());
                    if self.relaunch_works {
                        LaunchEvent::RelaunchExited { code: self.exit_code }
                    } else {
                        LaunchEvent::RelaunchFailed
                    }
                }
                LaunchAction::Finish(outcome) => {
                    assert_eq!(launcher.outcome(), Some(outcome));
                    return outcome;
                }
                LaunchAction::Nothing => unreachable!(),
            };
            action = launcher.step(event);
        }
    }
}

fn stub(artifact_present: bool, artifact_runs: bool) -> Stub {
    Stub {
        artifact_present,
        artifact_runs,
        removal_works: true,
        relaunch_works: true,
        exit_code: Some(0),
        done: Vec::new(),
    }
}

#[test]
fn confirmation_flag_is_fixed() {
    assert_eq!(CONFIRMATION_FLAG, "--iknowwhatimdoing");
}

#[test]
fn launch_begins_with_the_spawn() {
    let (launcher, action) = Launcher::begin();
    assert_eq!(action, LaunchAction::Spawn);
    assert_eq!(launcher, Launcher { phase: LaunchPhase::Running });
    assert_eq!(launcher.outcome(), None);
}

#[test]
fn spawned_child_is_a_success_whatever_it_returns() {
    for code in [Some(0), Some(1), Some(-1), Some(137), Some(i32::MAX), Some(i32::MIN), None] {
        let (mut launcher, _) = Launcher::begin();
        assert_eq!(
            launcher.step(LaunchEvent::ChildExited { code }),
            LaunchAction::Finish(LaunchOutcome::Success)
        );
        assert_eq!(launcher.phase, LaunchPhase::Finished(LaunchOutcome::Success));
        assert_eq!(launcher.outcome(), Some(LaunchOutcome::Success));
    }
}

#[test]
fn failed_spawn_deletes_then_relaunches() {
    let (mut launcher, _) = Launcher::begin();
    assert_eq!(launcher.step(LaunchEvent::SpawnFailed), LaunchAction::RemoveArtifact);
    assert_eq!(launcher.phase, LaunchPhase::Corrupted);
    assert_eq!(launcher.step(LaunchEvent::ArtifactRemoved), LaunchAction::RelaunchSelf);
    assert_eq!(launcher.phase, LaunchPhase::Relaunching);
    assert_eq!(
        launcher.step(LaunchEvent::RelaunchExited { code: Some(3) }),
        LaunchAction::Finish(LaunchOutcome::Relaunched)
    );
    assert_eq!(launcher.outcome(), Some(LaunchOutcome::Relaunched));
}

#[test]
fn failed_removal_is_fatal_and_relaunches_nothing() {
    let (mut launcher, _) = Launcher::begin();
    launcher.step(LaunchEvent::SpawnFailed);
    assert_eq!(
        launcher.step(LaunchEvent::RemoveFailed),
        LaunchAction::Finish(LaunchOutcome::RemovalFailed)
    );
    assert_eq!(launcher.step(LaunchEvent::ArtifactRemoved), LaunchAction::Nothing);
    assert_eq!(launcher.outcome(), Some(LaunchOutcome::RemovalFailed));
}

#[test]
fn failed_relaunch_is_fatal() {
    let (mut launcher, _) = Launcher::begin();
    launcher.step(LaunchEvent::SpawnFailed);
    launcher.step(LaunchEvent::ArtifactRemoved);
    assert_eq!(
        launcher.step(LaunchEvent::RelaunchFailed),
        LaunchAction::Finish(LaunchOutcome::RelaunchFailed)
    );
    assert_eq!(launcher.outcome(), Some(LaunchOutcome::RelaunchFailed));
}

#[test]
fn launch_events_out_of_turn_change_nothing() {
    let (mut launcher, _) = Launcher::begin();
    for event in [
        LaunchEvent::ArtifactRemoved,
        LaunchEvent::ArtifactAbsent,
        LaunchEvent::RemoveFailed,
        LaunchEvent::RelaunchExited { code: Some(0) },
        LaunchEvent::RelaunchFailed,
    ] {
        assert_eq!(launcher.step(event), LaunchAction::Nothing);
        assert_eq!(launcher.phase, LaunchPhase::Running);
    }
    launcher.step(LaunchEvent::SpawnFailed);
    for event in [
        LaunchEvent::SpawnFailed,
        LaunchEvent::ChildExited { code: Some(0) },
        LaunchEvent::RelaunchExited { code: Some(0) },
        LaunchEvent::RelaunchFailed,
    ] {
        assert_eq!(launcher.step(event), LaunchAction::Nothing);
        assert_eq!(launcher.phase, LaunchPhase::Corrupted);
    }
    launcher.step(LaunchEvent::ArtifactRemoved);
    for event in [
        LaunchEvent::SpawnFailed,
        LaunchEvent::ChildExited { code: None },
        LaunchEvent::ArtifactRemoved,
        LaunchEvent::RemoveFailed,
    ] {
        assert_eq!(launcher.step(event), LaunchAction::Nothing);
        assert_eq!(launcher.phase, LaunchPhase::Relaunching);
    }
}

#[test]
fn finished_launch_ignores_everything() {
    let (mut launcher, _) = Launcher::begin();
    launcher.step(LaunchEvent::ChildExited { code: Some(0) });
    for event in [
        LaunchEvent::SpawnFailed,
        LaunchEvent::ChildExited { code: Some(1) },
        LaunchEvent::ArtifactRemoved,
        LaunchEvent::RemoveFailed,
        LaunchEvent::RelaunchExited { code: None },
        LaunchEvent::RelaunchFailed,
    ] {
        assert_eq!(launcher.step(event), LaunchAction::Nothing);
        assert_eq!(launcher.outcome(), Some(LaunchOutcome::Success));
    }
}

#[test]
fn startable_artifact_is_spawned_once_and_kept() {
    let mut stub = stub(true, true);
    stub.exit_code = Some(42);
    assert_eq!(stub.launch(), LaunchOutcome::Success);
    assert_eq!(stub.done, vec!["spawn --iknowwhatimdoing"]);
    assert!(stub.artifact_present);
}

#[test]
fn corrupted_artifact_is_deleted_then_the_program_relaunched_once_each() {
    let mut stub = stub(true, false);
    assert_eq!(stub.launch(), LaunchOutcome::Relaunched);
    assert_eq!(stub.done, vec!["spawn --iknowwhatimdoing", "remove", "relaunch"]);
    assert!(!stub.artifact_present);
    assert_eq!(stub.done.iter().filter(|step| *step == "remove").count(), 1);
    assert_eq!(stub.done.iter().filter(|step| *step == "relaunch").count(), 1);
}

#[test]
fn missing_artifact_has_nothing_to_delete_and_the_program_is_relaunched() {
    let mut stub = stub(false, false);
    assert_eq!(stub.launch(), LaunchOutcome::Relaunched);
    assert_eq!(stub.done, vec!["spawn --iknowwhatimdoing", "relaunch"]);
    assert!(!stub.artifact_present);
}

#[test]
fn artifact_that_cannot_be_deleted_ends_the_launch_without_relaunch() {
    let mut stub = stub(true, false);
    stub.removal_works = false;
    assert_eq!(stub.launch(), LaunchOutcome::RemovalFailed);
    assert_eq!(stub.done, vec!["spawn --iknowwhatimdoing"]);
    assert!(stub.artifact_present);
}

#[test]
fn absent_artifact_leads_to_the_relaunch() {
    let (mut launcher, _) = Launcher::begin();
    launcher.step(LaunchEvent::SpawnFailed);
    assert_eq!(launcher.step(LaunchEvent::ArtifactAbsent), LaunchAction::RelaunchSelf);
    assert_eq!(launcher.phase, LaunchPhase::Relaunching);
}

#[test]
fn relaunch_that_cannot_start_ends_the_launch_after_the_removal() {
    let mut stub = stub(true, false);
    stub.relaunch_works = false;
    assert_eq!(stub.launch(), LaunchOutcome::RelaunchFailed);
    assert_eq!(stub.done, vec!["spawn --iknowwhatimdoing", "remove", "relaunch"]);
    assert!(!stub.artifact_present);
}
