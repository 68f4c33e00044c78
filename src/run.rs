use vstd::prelude::*;

use crate::assets::AssetSet;
use crate::extract::{files_after, lemma_extraction_reproduces_assets, plan_of};
use crate::launch::{target_binary_spec, ChildExit};
use crate::platform::{os_arch_subfolder, subfolder_for};

verus! {

/// Where a run stands.
#[derive(Clone, Copy, PartialEq, Eq, Structural, Debug)]
pub enum Stage {
    /// Copying the bundle into the workspace.
    Extract,
    /// Marking the binary executable (POSIX only).
    SetPermissions,
    /// Running the binary and waiting for it.
    Launch,
    /// The binary ran; its exit was reported.
    Done,
    /// A step failed; the run ends with a non-zero status.
    Failed,
}

/// What the caller reports after performing the current step.
#[derive(Clone, Copy, PartialEq, Eq, Structural, Debug)]
pub enum Event {
    /// The step completed.
    Completed,
    /// The step failed with an I/O error.
    Failed,
    /// The launched binary ended this way.
    ChildExited(ChildExit),
}

/// What the caller must do next.
#[derive(Clone, Copy, PartialEq, Eq, Structural, Debug)]
pub enum Action {
    /// Extract the bundle into a fresh workspace.
    Extract,
    /// Set the binary's mode.
    SetPermissions,
    /// Launch the binary and wait for it.
    Launch,
    /// End the process with this status.
    Exit(i32),
}

/// Status with which the process ends on an unsupported platform or a failed step.
pub open spec fn failure_status() -> i32 {
    1
}

/// The first stage and action of a run on this platform.
pub open spec fn start_spec(os: Seq<char>, arch: Seq<char>) -> (Stage, Action) {
    if subfolder_for(os, arch) is None {
        (Stage::Failed, Action::Exit(failure_status()))
    } else {
        (Stage::Extract, Action::Extract)
    }
}

/// One transition: the stage reached and the action to perform after `event`
/// ends the step of `stage`. `posix` says whether the permission step runs.
pub open spec fn step_spec(stage: Stage, posix: bool, event: Event) -> (Stage, Action) {
    match (stage, event) {
        (Stage::Extract, Event::Completed) => if posix {
            (Stage::SetPermissions, Action::SetPermissions)
        } else {
            (Stage::Launch, Action::Launch)
        },
        (Stage::SetPermissions, Event::Completed) => (Stage::Launch, Action::Launch),
        (Stage::Launch, Event::ChildExited(_)) => (Stage::Done, Action::Exit(0)),
        (Stage::Done, _) => (Stage::Done, Action::Exit(0)),
        _ => (Stage::Failed, Action::Exit(failure_status())),
    }
}

/// Starts a run: an unsupported (OS, architecture) pair ends it at once with
/// status 1 before anything is written; a supported one goes on to extraction.
pub fn start(os: &str, arch: &str) -> (r: (Stage, Action))
    ensures
        r == start_spec(os@, arch@),
{
    match os_arch_subfolder(os, arch) {
        Some(_) => (Stage::Extract, Action::Extract),
        None => (Stage::Failed, Action::Exit(1)),
    }
}

/// Advances a run by one step. A failure at any step ends the run with
/// status 1; a binary that ran ends it with status 0, whatever its own exit.
pub fn step(stage: Stage, posix: bool, event: Event) -> (r: (Stage, Action))
    ensures
        r == step_spec(stage, posix, event),
{
    match (stage, event) {
        (Stage::Extract, Event::Completed) => if posix {
            (Stage::SetPermissions, Action::SetPermissions)
        } else {
            (Stage::Launch, Action::Launch)
        },
        (Stage::SetPermissions, Event::Completed) => (Stage::Launch, Action::Launch),
        (Stage::Launch, Event::ChildExited(_)) => (Stage::Done, Action::Exit(0)),
        (Stage::Done, _) => (Stage::Done, Action::Exit(0)),
        _ => (Stage::Failed, Action::Exit(1)),
    }
}

/// On an unsupported (OS, architecture) pair a run ends at once with status 1,
/// and its only action is that exit: nothing is extracted or written.
pub proof fn lemma_unsupported_platform_exits(os: Seq<char>, arch: Seq<char>)
    requires
        subfolder_for(os, arch) is None,
    ensures
        start_spec(os, arch) == (Stage::Failed, Action::Exit(1)),
        step_spec(start_spec(os, arch).0, true, Event::Completed).1 == Action::Exit(1),
        step_spec(start_spec(os, arch).0, false, Event::Completed).1 == Action::Exit(1),
{
}

/// A bundle without the binary's path leaves no file there after extraction,
/// so the permission or launch step that follows fails, and a failure there
/// ends the run with status 1 rather than passing over it.
pub proof fn lemma_missing_binary_fails(set: &AssetSet, posix: bool)
    requires
        !set.contents().contains_key(target_binary_spec()),
    ensures
        !files_after(plan_of(set.entries_view(), set.entries_view().len() as int), set.entries_view())
            .contains_key(target_binary_spec()),
        step_spec(Stage::SetPermissions, posix, Event::Failed) == (Stage::Failed, Action::Exit(1)),
        step_spec(Stage::Launch, posix, Event::Failed) == (Stage::Failed, Action::Exit(1)),
{
    lemma_extraction_reproduces_assets(set);
}

/// A run that completes each step visits extraction, then the permission
/// step when `posix` holds, then the launch, and ends with status 0 whatever
/// the binary's own exit.
pub proof fn lemma_successful_run(posix: bool, child: ChildExit)
    ensures
        ({
            let after_extract = step_spec(Stage::Extract, posix, Event::Completed);
            let at_launch = if posix {
                step_spec(after_extract.0, posix, Event::Completed)
            } else {
                after_extract
            };
            &&& posix ==> after_extract == (Stage::SetPermissions, Action::SetPermissions)
            &&& at_launch == (Stage::Launch, Action::Launch)
            &&& step_spec(at_launch.0, posix, Event::ChildExited(child)) == (
                Stage::Done,
                Action::Exit(0),
            )
        }),
{
}

/// Once a run has failed, every further event leaves it failed with status 1.
pub proof fn lemma_failed_is_final(posix: bool, event: Event)
    ensures
        step_spec(Stage::Failed, posix, event) == (Stage::Failed, Action::Exit(1)),
{
}

} // verus!
