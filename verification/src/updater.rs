//! The self-update sequence: fetch the updater, fetch the application, then
//! hand over to the updater.
//!
//! The sequence stops at the first failure and then leaves the running
//! process as it was. Only when both artifacts are in place is the updater
//! spawned, and only when it has been spawned is the process told to stop.

use vstd::prelude::*;
use crate::download::Artifact;

verus! {

/// Where the updater comes from.
pub const UPDATER_URL: &'static str = "http://127.0.0.1:8080/updater";

/// Where the updater is put.
pub const UPDATER_PATH: &'static str = "storage/client/updater";

/// Where the new application comes from.
pub const APP_URL: &'static str = "http://127.0.0.1:8080/app";

/// Where the new application is put.
pub const APP_PATH: &'static str = "storage/client/app";

/// The updater program.
pub open spec fn updater_artifact() -> Artifact {
    Artifact { url: UPDATER_URL, path: UPDATER_PATH }
}

/// The new application binary.
pub open spec fn app_artifact() -> Artifact {
    Artifact { url: APP_URL, path: APP_PATH }
}

/// How an update sequence ended.
#[derive(Clone, Copy, Debug, PartialEq, Eq, Structural)]
pub enum Outcome {
    /// Both artifacts are in place and the updater runs.
    Success,
    /// A step failed; nothing was handed over.
    Failure,
}

/// How far an update sequence has come.
#[derive(Clone, Copy, Debug, PartialEq, Eq, Structural)]
pub enum UpdateStage {
    /// The updater is being downloaded.
    FetchingUpdater,
    /// The updater is in place; the application is being downloaded.
    FetchingApp,
    /// Both are in place; the updater is being spawned.
    Spawning,
    /// The sequence is over.
    Done(Outcome),
}

/// What the caller observed while doing the work of the current stage.
#[derive(Clone, Copy, Debug, PartialEq, Eq, Structural)]
pub enum UpdateEvent {
    /// The download that was asked for is complete and executable.
    Downloaded,
    /// The download that was asked for failed.
    DownloadFailed,
    /// The updater process was started.
    Spawned,
    /// The updater process could not be started.
    SpawnFailed,
}

/// What the caller has to do next.
#[derive(Clone, Copy, Debug, PartialEq, Eq)]
pub enum UpdateAction {
    /// Download this artifact and report how it went.
    Fetch(Artifact),
    /// Start the program at this path as a detached process.
    Spawn(&'static str),
    /// The updater runs: end this process's run loop.
    Stop,
    /// The sequence failed: go on handling commands as before.
    Resume,
    /// The event does not belong to the current stage; nothing to do.
    Ignore,
}

/// The stage that follows when `event` is reported in `stage`.
pub open spec fn next_stage(stage: UpdateStage, event: UpdateEvent) -> UpdateStage {
    match (stage, event) {
        (UpdateStage::FetchingUpdater, UpdateEvent::Downloaded) => UpdateStage::FetchingApp,
        (UpdateStage::FetchingUpdater, UpdateEvent::DownloadFailed) => UpdateStage::Done(
            Outcome::Failure,
        ),
        (UpdateStage::FetchingApp, UpdateEvent::Downloaded) => UpdateStage::Spawning,
        (UpdateStage::FetchingApp, UpdateEvent::DownloadFailed) => UpdateStage::Done(
            Outcome::Failure,
        ),
        (UpdateStage::Spawning, UpdateEvent::Spawned) => UpdateStage::Done(Outcome::Success),
        (UpdateStage::Spawning, UpdateEvent::SpawnFailed) => UpdateStage::Done(Outcome::Failure),
        _ => stage,
    }
}

/// The action that answers `event` when it is reported in `stage`.
pub open spec fn next_action(stage: UpdateStage, event: UpdateEvent) -> UpdateAction {
    match (stage, event) {
        (UpdateStage::FetchingUpdater, UpdateEvent::Downloaded) => UpdateAction::Fetch(
            app_artifact(),
        ),
        (UpdateStage::FetchingUpdater, UpdateEvent::DownloadFailed) => UpdateAction::Resume,
        (UpdateStage::FetchingApp, UpdateEvent::Downloaded) => UpdateAction::Spawn(UPDATER_PATH),
        (UpdateStage::FetchingApp, UpdateEvent::DownloadFailed) => UpdateAction::Resume,
        (UpdateStage::Spawning, UpdateEvent::Spawned) => UpdateAction::Stop,
        (UpdateStage::Spawning, UpdateEvent::SpawnFailed) => UpdateAction::Resume,
        _ => UpdateAction::Ignore,
    }
}

/// One update sequence.
pub struct SelfUpdater {
    stage: UpdateStage,
}

impl SelfUpdater {
    /// How far the sequence has come.
    pub closed spec fn stage(&self) -> UpdateStage {
        self.stage
    }

    /// Whether the sequence is over.
    pub open spec fn is_done(&self) -> bool {
        self.stage() is Done
    }

    /// Starts a sequence. The first thing to do is to fetch the updater.
    pub fn start() -> (r: (SelfUpdater, UpdateAction))
        ensures
            r.0.stage() == UpdateStage::FetchingUpdater,
            r.1 == UpdateAction::Fetch(updater_artifact()),
    {
        (
            SelfUpdater { stage: UpdateStage::FetchingUpdater },
            UpdateAction::Fetch(Artifact { url: UPDATER_URL, path: UPDATER_PATH }),
        )
    }

    /// How far the sequence has come.
    pub fn current_stage(&self) -> (s: UpdateStage)
        ensures
            s == self.stage(),
    {
        self.stage
    }

    /// How the sequence ended, once it is over.
    pub fn outcome(&self) -> (o: Option<Outcome>)
        ensures
            o == (match self.stage() {
                UpdateStage::Done(outcome) => Some(outcome),
                _ => None,
            }),
    {
        match self.stage {
            UpdateStage::Done(outcome) => Some(outcome),
            _ => None,
        }
    }

    /// Takes in what the caller observed and says what to do next. An event
    /// that does not belong to the current stage changes nothing.
    pub fn step(&mut self, event: UpdateEvent) -> (action: UpdateAction)
        ensures
            final(self).stage() == next_stage(old(self).stage(), event),
            action == next_action(old(self).stage(), event),
    {
        match (self.stage, event) {
            (UpdateStage::FetchingUpdater, UpdateEvent::Downloaded) => {
                self.stage = UpdateStage::FetchingApp;
                UpdateAction::Fetch(Artifact { url: APP_URL, path: APP_PATH })
            },
            (UpdateStage::FetchingUpdater, UpdateEvent::DownloadFailed) => {
                self.stage = UpdateStage::Done(Outcome::Failure);
                UpdateAction::Resume
            },
            (UpdateStage::FetchingApp, UpdateEvent::Downloaded) => {
                self.stage = UpdateStage::Spawning;
                UpdateAction::Spawn(UPDATER_PATH)
            },
            (UpdateStage::FetchingApp, UpdateEvent::DownloadFailed) => {
                self.stage = UpdateStage::Done(Outcome::Failure);
                UpdateAction::Resume
            },
            (UpdateStage::Spawning, UpdateEvent::Spawned) => {
                self.stage = UpdateStage::Done(Outcome::Success);
                UpdateAction::Stop
            },
            (UpdateStage::Spawning, UpdateEvent::SpawnFailed) => {
                self.stage = UpdateStage::Done(Outcome::Failure);
                UpdateAction::Resume
            },
            _ => UpdateAction::Ignore,
        }
    }
}

/// The updater is spawned only when the second download has succeeded, and
/// the process is told to stop only when the updater has been spawned.
pub proof fn lemma_hand_over_only_after_both_downloads(stage: UpdateStage, event: UpdateEvent)
    ensures
        next_action(stage, event) is Spawn ==> stage == UpdateStage::FetchingApp && event
            == UpdateEvent::Downloaded,
        next_action(stage, event) == UpdateAction::Stop ==> stage == UpdateStage::Spawning && event
            == UpdateEvent::Spawned,
        next_stage(stage, event) == UpdateStage::FetchingApp ==> stage
            == UpdateStage::FetchingUpdater && event == UpdateEvent::Downloaded || stage
            == UpdateStage::FetchingApp,
{
}

/// A failure that is reported in its turn ends the sequence as a failure,
/// with nothing spawned and the process left running.
pub proof fn lemma_failure_leaves_process_running(stage: UpdateStage, event: UpdateEvent)
    requires
        !(stage is Done),
        event == UpdateEvent::DownloadFailed && stage != UpdateStage::Spawning || event
            == UpdateEvent::SpawnFailed && stage == UpdateStage::Spawning,
    ensures
        next_stage(stage, event) == UpdateStage::Done(Outcome::Failure),
        next_action(stage, event) == UpdateAction::Resume,
{
}

/// A sequence that is over stays over: no later event makes it do anything.
pub proof fn lemma_done_is_final(stage: UpdateStage, event: UpdateEvent)
    requires
        stage is Done,
    ensures
        next_stage(stage, event) == stage,
        next_action(stage, event) == UpdateAction::Ignore,
{
}

} // verus!
