//! The launcher: starting the artifact, and the one recovery there is when
//! it cannot be started.
//!
//! An artifact that cannot be spawned counts as a corrupted install. It is
//! deleted if it is there, and the whole program is started afresh as a child
//! process, which will find the artifact missing and download it again.

use vstd::prelude::*;

verus! {

/// The argument every launched artifact receives: it tells the artifact
/// that it was started by this launcher, on purpose.
pub const CONFIRMATION_FLAG: &'static str = "--iknowwhatimdoing";

/// How a launch ended.
#[derive(Clone, Copy, Debug, PartialEq, Eq, Structural)]
pub enum LaunchOutcome {
    /// The artifact was spawned and has exited, with whatever exit code.
    Success,
    /// The artifact could not be spawned. It was deleted if it was there,
    /// and the program was run again as a child process, which has exited.
    Relaunched,
    /// The artifact could not be spawned, and could not be deleted either.
    RemovalFailed,
    /// The artifact was deleted, but the program could not be run again.
    RelaunchFailed,
}

/// Where a launch stands.
#[derive(Clone, Copy, Debug, PartialEq, Eq, Structural)]
pub enum LaunchPhase {
    /// The artifact is being spawned, or runs.
    Running,
    /// The spawn failed; the artifact is being deleted.
    Corrupted,
    /// The artifact is gone; the program is being run again.
    Relaunching,
    Finished(LaunchOutcome),
}

/// What the driver tells the machine.
#[derive(Clone, Copy, Debug, PartialEq, Eq)]
pub enum LaunchEvent {
    /// The artifact was spawned and has exited. Its exit code, where there
    /// is one, plays no part.
    ChildExited { code: Option<i32> },
    /// The artifact could not be spawned: missing, not executable, of a
    /// format the system does not run.
    SpawnFailed,
    /// The artifact file was deleted.
    ArtifactRemoved,
    /// There was no artifact file to delete.
    ArtifactAbsent,
    /// The artifact file is there and could not be deleted.
    RemoveFailed,
    /// The program was run again as a child, which has exited.
    RelaunchExited { code: Option<i32> },
    /// The program could not be run again.
    RelaunchFailed,
}

/// What the machine asks of the driver.
#[derive(Clone, Copy, Debug, PartialEq, Eq, Structural)]
pub enum LaunchAction {
    /// Spawn the artifact with `CONFIRMATION_FLAG` as its one argument and
    /// wait for it to exit.
    Spawn,
    /// Delete the artifact file, if it is there.
    RemoveArtifact,
    /// Run this program's own executable, without arguments, and wait for
    /// it to exit.
    RelaunchSelf,
    /// The launch is over.
    Finish(LaunchOutcome),
    /// The event does not belong to the current phase and was ignored.
    Nothing,
}

/// The state of one launch.
#[derive(Clone, Copy, Debug, PartialEq, Eq, Structural)]
pub struct Launcher {
    pub phase: LaunchPhase,
}

impl Launcher {
    /// The state in which a launch starts.
    pub open spec fn initial() -> Launcher {
        Launcher { phase: LaunchPhase::Running }
    }

    /// A launch brought to its end with `outcome`.
    pub open spec fn ending(outcome: LaunchOutcome) -> (Launcher, LaunchAction) {
        (Launcher { phase: LaunchPhase::Finished(outcome) }, LaunchAction::Finish(outcome))
    }

    /// The transition of the machine: the state after `event`, and the
    /// action asked for.
    pub open spec fn after(self, event: LaunchEvent) -> (Launcher, LaunchAction) {
        match (self.phase, event) {
            (LaunchPhase::Running, LaunchEvent::ChildExited { code }) => Self::ending(
                LaunchOutcome::Success,
            ),
            (LaunchPhase::Running, LaunchEvent::SpawnFailed) => (
                Launcher { phase: LaunchPhase::Corrupted },
                LaunchAction::RemoveArtifact,
            ),
            (LaunchPhase::Corrupted, LaunchEvent::ArtifactRemoved) => (
                Launcher { phase: LaunchPhase::Relaunching },
                LaunchAction::RelaunchSelf,
            ),
            (LaunchPhase::Corrupted, LaunchEvent::ArtifactAbsent) => (
                Launcher { phase: LaunchPhase::Relaunching },
                LaunchAction::RelaunchSelf,
            ),
            (LaunchPhase::Corrupted, LaunchEvent::RemoveFailed) => Self::ending(
                LaunchOutcome::RemovalFailed,
            ),
            (LaunchPhase::Relaunching, LaunchEvent::RelaunchExited { code }) => Self::ending(
                LaunchOutcome::Relaunched,
            ),
            (LaunchPhase::Relaunching, LaunchEvent::RelaunchFailed) => Self::ending(
                LaunchOutcome::RelaunchFailed,
            ),
            _ => (self, LaunchAction::Nothing),
        }
    }

    /// Starts a launch: the first thing to do is to spawn the artifact.
    pub fn begin() -> (start: (Launcher, LaunchAction))
        ensures
            start == (Self::initial(), LaunchAction::Spawn),
    {
        (Launcher { phase: LaunchPhase::Running }, LaunchAction::Spawn)
    }

    fn finish(&mut self, outcome: LaunchOutcome) -> (action: LaunchAction)
        ensures
            (*final(self), action) == Self::ending(outcome),
    {
        self.phase = LaunchPhase::Finished(outcome);
        LaunchAction::Finish(outcome)
    }

    /// Takes the outcome of the action last asked for and answers with the
    /// next one. An event that does not belong to the current phase changes
    /// nothing.
    pub fn step(&mut self, event: LaunchEvent) -> (action: LaunchAction)
        ensures
            (*final(self), action) == old(self).after(event),
    {
        match (self.phase, event) {
            (LaunchPhase::Running, LaunchEvent::ChildExited { code: _ }) => self.finish(
                LaunchOutcome::Success,
            ),
            (LaunchPhase::Running, LaunchEvent::SpawnFailed) => {
                self.phase = LaunchPhase::Corrupted;
                LaunchAction::RemoveArtifact
            },
            (LaunchPhase::Corrupted, LaunchEvent::ArtifactRemoved) => {
                self.phase = LaunchPhase::Relaunching;
                LaunchAction::RelaunchSelf
            },
            (LaunchPhase::Corrupted, LaunchEvent::ArtifactAbsent) => {
                self.phase = LaunchPhase::Relaunching;
                LaunchAction::RelaunchSelf
            },
            (LaunchPhase::Corrupted, LaunchEvent::RemoveFailed) => self.finish(
                LaunchOutcome::RemovalFailed,
            ),
            (LaunchPhase::Relaunching, LaunchEvent::RelaunchExited { code: _ }) => self.finish(
                LaunchOutcome::Relaunched,
            ),
            (LaunchPhase::Relaunching, LaunchEvent::RelaunchFailed) => self.finish(
                LaunchOutcome::RelaunchFailed,
            ),
            _ => LaunchAction::Nothing,
        }
    }

    /// How the launch ended, once it has.
    pub fn outcome(&self) -> (outcome: Option<LaunchOutcome>)
        ensures
            outcome == match self.phase {
                LaunchPhase::Finished(end) => Some(end),
                _ => None,
            },
    {
        match self.phase {
            LaunchPhase::Finished(end) => Some(end),
            _ => None,
        }
    }

    /// The state after the machine has taken `events` one after the other.
    pub open spec fn run(self, events: Seq<LaunchEvent>) -> Launcher
        decreases events.len(),
    {
        if events.len() == 0 {
            self
        } else {
            self.run(events.drop_last()).after(events.last()).0
        }
    }

    /// The action with which the machine answers the event at `index` of a
    /// run over `events`.
    pub open spec fn action_at(self, events: Seq<LaunchEvent>, index: int) -> LaunchAction {
        self.run(events.take(index)).after(events[index]).1
    }

    /// How far a launch has come: a step never takes it back.
    pub open spec fn rank(self) -> int {
        match self.phase {
            LaunchPhase::Running => 0,
            LaunchPhase::Corrupted => 1,
            LaunchPhase::Relaunching => 2,
            LaunchPhase::Finished(_) => 3,
        }
    }
}

proof fn lemma_run_extends(launcher: Launcher, events: Seq<LaunchEvent>, count: int)
    requires
        0 <= count < events.len(),
    ensures
        launcher.run(events.take(count + 1)) == launcher.run(events.take(count)).after(
            events[count],
        ).0,
{
    assert(events.take(count + 1).drop_last() == events.take(count));
}

proof fn lemma_rank_grows(launcher: Launcher, events: Seq<LaunchEvent>, fewer: int, more: int)
    requires
        0 <= fewer <= more <= events.len(),
    ensures
        launcher.run(events.take(fewer)).rank() <= launcher.run(events.take(more)).rank(),
    decreases more - fewer,
{
    if fewer < more {
        lemma_rank_grows(launcher, events, fewer, more - 1);
        lemma_run_extends(launcher, events, more - 1);
    }
}

/// The exit code of the artifact is not looked at: a spawn that succeeded
/// is a success, whatever the child returned.
pub proof fn lemma_exit_code_is_ignored(code: Option<i32>, other: Option<i32>)
    ensures
        Launcher::initial().after(LaunchEvent::ChildExited { code }) == Launcher::ending(
            LaunchOutcome::Success,
        ),
        Launcher::initial().after(LaunchEvent::ChildExited { code }) == Launcher::initial().after(
            LaunchEvent::ChildExited { code: other },
        ),
{
}

/// The artifact is deleted only when its spawn has just failed, and the
/// program is run again only when the artifact has just been deleted or was
/// found to be missing already.
pub proof fn lemma_recovery_causes(launcher: Launcher, event: LaunchEvent)
    ensures
        launcher.after(event).1 == LaunchAction::RemoveArtifact ==> launcher.phase
            == LaunchPhase::Running && event == LaunchEvent::SpawnFailed,
        launcher.after(event).1 == LaunchAction::RelaunchSelf ==> launcher.phase
            == LaunchPhase::Corrupted && (event == LaunchEvent::ArtifactRemoved || event
            == LaunchEvent::ArtifactAbsent),
        launcher.phase == LaunchPhase::Corrupted && (event == LaunchEvent::ArtifactRemoved || event
            == LaunchEvent::ArtifactAbsent) ==> launcher.after(event) == (
            Launcher { phase: LaunchPhase::Relaunching },
            LaunchAction::RelaunchSelf,
        ),
        launcher.phase == LaunchPhase::Running && event == LaunchEvent::SpawnFailed
            ==> launcher.after(event) == (
            Launcher { phase: LaunchPhase::Corrupted },
            LaunchAction::RemoveArtifact,
        ),
{
}

/// In any launch the artifact is deleted at most once and the program is run
/// again at most once.
pub proof fn lemma_recovery_happens_once(events: Seq<LaunchEvent>, i: int, j: int)
    requires
        0 <= i < events.len(),
        0 <= j < events.len(),
    ensures
        Launcher::initial().action_at(events, i) == LaunchAction::RemoveArtifact
            && Launcher::initial().action_at(events, j) == LaunchAction::RemoveArtifact ==> i == j,
        Launcher::initial().action_at(events, i) == LaunchAction::RelaunchSelf
            && Launcher::initial().action_at(events, j) == LaunchAction::RelaunchSelf ==> i == j,
{
    let start = Launcher::initial();
    lemma_run_extends(start, events, i);
    lemma_run_extends(start, events, j);
    if i < j {
        lemma_rank_grows(start, events, i + 1, j);
    } else if j < i {
        lemma_rank_grows(start, events, j + 1, i);
    }
}

/// Whenever the program is run again, the artifact was deleted before, in
/// the same launch, after its spawn had failed.
pub proof fn lemma_removal_precedes_relaunch(events: Seq<LaunchEvent>, relaunch: int) -> (removal:
    int)
    requires
        0 <= relaunch < events.len(),
        Launcher::initial().action_at(events, relaunch) == LaunchAction::RelaunchSelf,
    ensures
        0 <= removal < relaunch,
        Launcher::initial().action_at(events, removal) == LaunchAction::RemoveArtifact,
        events[removal] == LaunchEvent::SpawnFailed,
{
    lemma_corrupted_follows_removal(events, relaunch)
}

proof fn lemma_corrupted_follows_removal(events: Seq<LaunchEvent>, count: int) -> (removal: int)
    requires
        0 <= count <= events.len(),
        Launcher::initial().run(events.take(count)).phase == LaunchPhase::Corrupted,
    ensures
        0 <= removal < count,
        Launcher::initial().action_at(events, removal) == LaunchAction::RemoveArtifact,
        events[removal] == LaunchEvent::SpawnFailed,
    decreases count,
{
    let start = Launcher::initial();
    if count == 0 {
        assert(events.take(0) == Seq::<LaunchEvent>::empty());
        0
    } else {
        lemma_run_extends(start, events, count - 1);
        if start.run(events.take(count - 1)).phase == LaunchPhase::Corrupted {
            lemma_corrupted_follows_removal(events, count - 1)
        } else {
            count - 1
        }
    }
}

} // verus!
