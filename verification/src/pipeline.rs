//! The build pipeline as a step-by-step state machine.
//!
//! A build is a fixed sequence: reset the install directory, reset the
//! build directory, stage the vendored tree, list the release line's tags,
//! check out the resolved tag, configure, compile, install, tear the build
//! directory down.  The machine holds no hidden state: from the current
//! step and the observed outcome of the last action it decides the next
//! step and the next action.  The caller performs each action — resetting
//! a directory, copying the tree, running a process — and reports back
//! what happened.  Any failure makes the machine finish at once with the
//! error of the stage that failed; nothing is retried.

use vstd::pervasive::unreached;
use vstd::prelude::*;

use crate::command::{
    is_checkout_cmd, is_configure_cmd, is_list_tags_cmd, is_make_cmd, is_make_install_cmd, Cmd,
};
use crate::errors::BuildError;
use crate::numerals::dec_rep;
use crate::paths::path_join;
use crate::version::{max_patch, tag_prefix};
use crate::{Artifacts, Build};

verus! {

/// Where the pipeline stands: the stage whose action is in flight, or
/// `Finished` once a `Finish` or `Fail` action was issued.
#[derive(Debug, Clone, Copy, PartialEq, Eq, Structural)]
pub enum Step {
    CleanInstall,
    CleanBuild,
    Staging,
    ListingTags,
    CheckingOut,
    Configuring,
    Compiling,
    Installing,
    TearingDown,
    Finished,
}

/// The observed outcome of the last action, reported by the caller.
#[derive(Debug, Clone, PartialEq, Eq)]
pub enum Event {
    /// The action completed; `output` holds the whitespace-separated
    /// tokens of the captured standard output, where any was consumed.
    Succeeded { output: Vec<String> },
    /// The action ran and reported failure; `diagnostics` carries the
    /// captured output, or the offending path for a staging failure.
    Failed { diagnostics: String },
    /// A process could not be spawned at all.
    SpawnFailed { diagnostics: String },
}

/// What the caller must do next.
#[derive(Debug, Clone, PartialEq, Eq)]
pub enum Action {
    /// Delete `path` if it exists, then create it fresh, parents included.
    ResetDir { path: String },
    /// Copy the tree rooted at `src` into `dst`.
    StageTree { src: String, dst: String },
    /// Run the command and report its outcome.
    Run { cmd: Cmd },
    /// Delete the directory `path` recursively.
    RemoveDir { path: String },
    /// The build succeeded; these are its artifacts.
    Finish { artifacts: Artifacts },
    /// The build failed with this error.
    Fail { error: BuildError },
}

/// Whether `a` is the artifact layout of `b`: the install directory with
/// its `include` and `lib` subdirectories.
pub open spec fn is_artifacts_of(a: Artifacts, b: Build) -> bool {
    &&& a.install_dir@ == b.install_dir@
    &&& a.include_dir@ == path_join(b.install_dir@, "include"@)
    &&& a.lib_dir@ == path_join(b.install_dir@, "lib"@)
}

/// The error a failure at step `s` surfaces as, with the diagnostic text
/// `diag` attached.
pub open spec fn failure_error(s: Step, diag: Seq<char>, e: BuildError) -> bool {
    match s {
        Step::CleanInstall => e matches BuildError::WorkspaceError { diagnostics } && diagnostics@
            == diag,
        Step::CleanBuild => e matches BuildError::WorkspaceError { diagnostics } && diagnostics@
            == diag,
        Step::TearingDown => e matches BuildError::WorkspaceError { diagnostics } && diagnostics@
            == diag,
        Step::Staging => e matches BuildError::StagingError { path } && path@ == diag,
        Step::ListingTags => e matches BuildError::CheckoutError { diagnostics } && diagnostics@
            == diag,
        Step::CheckingOut => e matches BuildError::CheckoutError { diagnostics } && diagnostics@
            == diag,
        Step::Configuring => e matches BuildError::ConfigureFailed { diagnostics } && diagnostics@
            == diag,
        Step::Compiling => e matches BuildError::CompileFailed { diagnostics } && diagnostics@
            == diag,
        Step::Installing => e matches BuildError::InstallFailed { diagnostics } && diagnostics@
            == diag,
        Step::Finished => false,
    }
}

/// The transition taken when the action of step `s` succeeded with the
/// output tokens `output`.
pub open spec fn success_transition(
    b: Build,
    s: Step,
    output: Seq<String>,
    detected: usize,
    s2: Step,
    a: Action,
) -> bool {
    match s {
        Step::CleanInstall => s2 is CleanBuild && (a matches Action::ResetDir { path } && path@
            == b.build_dir@),
        Step::CleanBuild => s2 is Staging && (a matches Action::StageTree { src, dst } && src@
            == b.source_dir@ && dst@ == b.build_dir@),
        Step::Staging => s2 is ListingTags && (a matches Action::Run { cmd } && is_list_tags_cmd(
            cmd,
            b,
        )),
        Step::ListingTags => match max_patch(output, b.version@) {
            Option::Some(m) => s2 is CheckingOut && (a matches Action::Run { cmd }
                && is_checkout_cmd(cmd, b, tag_prefix(b.version@) + dec_rep(m))),
            Option::None => s2 is Finished && (a matches Action::Fail { error } && error matches
                BuildError::VersionNotFound { version } && version@ == b.version@),
        },
        Step::CheckingOut => s2 is Configuring && (a matches Action::Run { cmd }
            && is_configure_cmd(cmd, b)),
        Step::Configuring => s2 is Compiling && (a matches Action::Run { cmd } && is_make_cmd(
            cmd,
            b,
            detected,
        )),
        Step::Compiling => s2 is Installing && (a matches Action::Run { cmd }
            && is_make_install_cmd(cmd, b)),
        Step::Installing => s2 is TearingDown && (a matches Action::RemoveDir { path } && path@
            == b.build_dir@),
        Step::TearingDown => s2 is Finished && (a matches Action::Finish { artifacts }
            && is_artifacts_of(artifacts, b)),
        Step::Finished => false,
    }
}

/// The full transition relation of the pipeline: a success advances to the
/// next stage, any failure finishes at once with the failing stage's
/// error, and a process that could not even be spawned finishes with
/// `ExecutionError`.
pub open spec fn spec_step(
    b: Build,
    s: Step,
    e: Event,
    detected: usize,
    s2: Step,
    a: Action,
) -> bool {
    match e {
        Event::Succeeded { output } => success_transition(b, s, output@, detected, s2, a),
        Event::Failed { diagnostics } => s2 is Finished && (a matches Action::Fail { error }
            && failure_error(s, diagnostics@, error)),
        Event::SpawnFailed { diagnostics } => s2 is Finished && (a matches Action::Fail { error }
            && error matches BuildError::ExecutionError { diagnostics: d } && d@ == diagnostics@),
    }
}

impl Build {
    /// Begins a build: the first step resets the install directory, so a
    /// failed attempt never leaves stale artifacts behind.
    pub fn start(&self) -> (r: (Step, Action))
        ensures
            r.0 is CleanInstall,
            r.1 matches Action::ResetDir { path } && path@ == self.install_dir@,
    {
        (Step::CleanInstall, Action::ResetDir { path: self.install_dir.clone() })
    }

    /// Advances the pipeline by one step, given the outcome of the step in
    /// flight.  `detected_parallelism` is consulted only when the compile
    /// command is formed and no explicit job count was set.
    pub fn step(&self, s: Step, e: Event, detected_parallelism: usize) -> (r: (Step, Action))
        requires
            !(s is Finished),
        ensures
            spec_step(*self, s, e, detected_parallelism, r.0, r.1),
    {
        match e {
            Event::Succeeded { output } => match s {
                Step::CleanInstall => (
                    Step::CleanBuild,
                    Action::ResetDir { path: self.build_dir.clone() },
                ),
                Step::CleanBuild => (
                    Step::Staging,
                    Action::StageTree {
                        src: self.source_dir.clone(),
                        dst: self.build_dir.clone(),
                    },
                ),
                Step::Staging => (Step::ListingTags, Action::Run { cmd: self.list_tags() }),
                Step::ListingTags => match self.checkout_version(&output) {
                    Result::Ok(cmd) => (Step::CheckingOut, Action::Run { cmd }),
                    Result::Err(error) => (Step::Finished, Action::Fail { error }),
                },
                Step::CheckingOut => (Step::Configuring, Action::Run { cmd: self.configure() }),
                Step::Configuring => (
                    Step::Compiling,
                    Action::Run { cmd: self.make(detected_parallelism) },
                ),
                Step::Compiling => (Step::Installing, Action::Run { cmd: self.make_install() }),
                Step::Installing => (
                    Step::TearingDown,
                    Action::RemoveDir { path: self.build_dir.clone() },
                ),
                Step::TearingDown => (
                    Step::Finished,
                    Action::Finish { artifacts: self.artifacts() },
                ),
                Step::Finished => unreached(),
            },
            Event::Failed { diagnostics } => (
                Step::Finished,
                Action::Fail { error: stage_error(s, diagnostics) },
            ),
            Event::SpawnFailed { diagnostics } => (
                Step::Finished,
                Action::Fail { error: BuildError::ExecutionError { diagnostics } },
            ),
        }
    }
}

/// Maps a failure at step `s` to the error of that stage.
fn stage_error(s: Step, diagnostics: String) -> (e: BuildError)
    requires
        !(s is Finished),
    ensures
        failure_error(s, diagnostics@, e),
{
    match s {
        Step::CleanInstall => BuildError::WorkspaceError { diagnostics },
        Step::CleanBuild => BuildError::WorkspaceError { diagnostics },
        Step::TearingDown => BuildError::WorkspaceError { diagnostics },
        Step::Staging => BuildError::StagingError { path: diagnostics },
        Step::ListingTags => BuildError::CheckoutError { diagnostics },
        Step::CheckingOut => BuildError::CheckoutError { diagnostics },
        Step::Configuring => BuildError::ConfigureFailed { diagnostics },
        Step::Compiling => BuildError::CompileFailed { diagnostics },
        Step::Installing => BuildError::InstallFailed { diagnostics },
        Step::Finished => unreached(),
    }
}

/// The pipeline stops as soon as it reports an outcome: whenever a
/// transition issues a `Finish` or `Fail` action, the machine is finished,
/// so no further command follows a reported failure or success.
pub proof fn lemma_outcome_is_terminal(
    b: Build,
    s: Step,
    e: Event,
    detected: usize,
    s2: Step,
    a: Action,
)
    requires
        spec_step(b, s, e, detected, s2, a),
        a matches Action::Finish { .. } || a matches Action::Fail { .. },
    ensures
        s2 is Finished,
{
}

/// Commands run only once the workspace is clean: every `Run` action is
/// issued from the staging stage or later, and the only transitions that
/// reach those stages are the two directory resets succeeding first, so no
/// external tool ever sees a stale build or install directory.
pub proof fn lemma_runs_follow_resets(
    b: Build,
    s: Step,
    e: Event,
    detected: usize,
    s2: Step,
    a: Action,
)
    requires
        spec_step(b, s, e, detected, s2, a),
        a matches Action::Run { .. },
    ensures
        s is Staging || s is ListingTags || s is CheckingOut || s is Configuring || s
            is Compiling,
        !(s2 is Finished),
{
}

/// The position of a stage in the fixed build sequence.
pub open spec fn stage_index(s: Step) -> int {
    match s {
        Step::CleanInstall => 0,
        Step::CleanBuild => 1,
        Step::Staging => 2,
        Step::ListingTags => 3,
        Step::CheckingOut => 4,
        Step::Configuring => 5,
        Step::Compiling => 6,
        Step::Installing => 7,
        Step::TearingDown => 8,
        Step::Finished => 9,
    }
}

/// A run of the pipeline for `b`: `steps[0]` and `actions[0]` come from
/// `start`, and each later step and action follows from the previous step
/// and the event the caller reported for it.
pub open spec fn is_run(
    b: Build,
    detected: usize,
    steps: Seq<Step>,
    actions: Seq<Action>,
    events: Seq<Event>,
) -> bool {
    &&& steps.len() == actions.len()
    &&& steps.len() == events.len() + 1
    &&& steps[0] is CleanInstall
    &&& (actions[0] matches Action::ResetDir { path } && path@ == b.install_dir@)
    &&& forall|i: int|
        0 <= i < events.len() ==> spec_step(
            b,
            steps[i],
            events[i],
            detected,
            steps[i + 1],
            actions[i + 1],
        )
}

/// A transition that does not finish the pipeline advances it by exactly
/// one stage.
proof fn lemma_step_advances(b: Build, s: Step, e: Event, detected: usize, s2: Step, a: Action)
    requires
        spec_step(b, s, e, detected, s2, a),
        !(s2 is Finished),
    ensures
        !(s is Finished),
        stage_index(s2) == stage_index(s) + 1,
{
}

/// While a run has not finished, its position in the trace and its stage
/// coincide: the pipeline visits the stages strictly in order.
proof fn lemma_run_position(
    b: Build,
    detected: usize,
    steps: Seq<Step>,
    actions: Seq<Action>,
    events: Seq<Event>,
    k: int,
)
    requires
        is_run(b, detected, steps, actions, events),
        0 <= k < steps.len(),
        !(steps[k] is Finished),
    ensures
        forall|j: int| 0 <= j <= k ==> stage_index(steps[j]) == j && !(steps[j] is Finished),
    decreases k,
{
    if k > 0 {
        lemma_step_advances(b, steps[k - 1], events[k - 1], detected, steps[k], actions[k]);
        lemma_run_position(b, detected, steps, actions, events, k - 1);
    }
}

/// Old state is purged before any external tool runs: in every run of the
/// pipeline, a command is only ever issued after the install directory
/// reset, the build directory reset and the staging copy, in that order —
/// so the tree a command sees is a fresh copy in a fresh workspace, and the
/// install directory never carries stale files into a build.
pub proof fn lemma_no_command_before_cleanup(
    b: Build,
    detected: usize,
    steps: Seq<Step>,
    actions: Seq<Action>,
    events: Seq<Event>,
    k: int,
)
    requires
        is_run(b, detected, steps, actions, events),
        0 <= k < actions.len(),
        actions[k] matches Action::Run { .. },
    ensures
        k >= 3,
        actions[0] matches Action::ResetDir { path } && path@ == b.install_dir@,
        actions[1] matches Action::ResetDir { path } && path@ == b.build_dir@,
        actions[2] matches Action::StageTree { src, dst } && src@ == b.source_dir@ && dst@
            == b.build_dir@,
{
    assert(k >= 1);
    lemma_runs_follow_resets(
        b,
        steps[k - 1],
        events[k - 1],
        detected,
        steps[k],
        actions[k],
    );
    lemma_run_position(b, detected, steps, actions, events, k);
    assert(stage_index(steps[k]) == k);
    assert(k >= 3);
    assert(steps[1] is CleanBuild);
    assert(steps[2] is Staging);
    assert(spec_step(b, steps[0], events[0], detected, steps[1], actions[1]));
    assert(spec_step(b, steps[1], events[1], detected, steps[2], actions[2]));
}

/// When no tag matches the requested minor version, the pipeline finishes
/// with `VersionNotFound` straight from the tag listing: no checkout,
/// configure, compile or install command is ever issued for that build.
pub proof fn lemma_no_commands_without_version(
    b: Build,
    e: Event,
    output: Seq<String>,
    detected: usize,
    s2: Step,
    a: Action,
)
    requires
        spec_step(b, Step::ListingTags, e, detected, s2, a),
        e matches Event::Succeeded { output: o } && o@ == output,
        max_patch(output, b.version@) is None,
    ensures
        s2 is Finished,
        a matches Action::Fail { error } && error matches BuildError::VersionNotFound {
            version,
        } && version@ == b.version@,
{
}

} // verus!
