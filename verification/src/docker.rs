//! The image tasks. A pull resolves the mirror first — a document with no
//! matching rule aborts before any external call — and then drives the
//! external executor through fetch, relabel and cleanup, strictly in that
//! order; each step's failure carries its own error so a caller can tell at
//! which stage the external system failed. The check task resolves only and
//! never errors. The executor itself lives outside: the run machine hands
//! the driver one action at a time and consumes its outcome.

use vstd::prelude::*;

use crate::config::RushGetConfig;
use crate::error::DockermirError;
use crate::error::ErrorView;
use crate::registry::DocScan;
use crate::registry::ImageMirrorData;
use crate::registry::MirrorRegistry;
use crate::registry::mirror_for;
use crate::registry::resolution_spec;
use crate::registry::scan_doc;

verus! {

/// The pair of identifiers a fetch-and-relabel run works with.
pub struct DockermirPullInput {
    source_image: String,
    mirror_image: String,
}

#[verifier::ext_equal]
pub struct PullInputView {
    pub source_image: Seq<char>,
    pub mirror_image: Seq<char>,
}

impl View for DockermirPullInput {
    type V = PullInputView;

    closed spec fn view(&self) -> PullInputView {
        PullInputView { source_image: self.source_image@, mirror_image: self.mirror_image@ }
    }
}

impl DockermirPullInput {
    pub fn new(source_image: String, mirror_image: String) -> (r: DockermirPullInput)
        ensures
            r@ == (PullInputView { source_image: source_image@, mirror_image: mirror_image@ }),
    {
        DockermirPullInput { source_image, mirror_image }
    }
}

/// One instruction to the external executor.
pub enum PullAction {
    /// Fetch the artifact under the mirror identifier.
    Fetch { mirror_image: String },
    /// Alias the fetched artifact under the original source identifier.
    Relabel { mirror_image: String, source_image: String },
    /// Remove the now-redundant mirror-labelled artifact.
    Cleanup { mirror_image: String },
}

#[verifier::ext_equal]
pub enum PullActionView {
    Fetch { mirror_image: Seq<char> },
    Relabel { mirror_image: Seq<char>, source_image: Seq<char> },
    Cleanup { mirror_image: Seq<char> },
}

impl View for PullAction {
    type V = PullActionView;

    open spec fn view(&self) -> PullActionView {
        match self {
            PullAction::Fetch { mirror_image } => PullActionView::Fetch {
                mirror_image: mirror_image@,
            },
            PullAction::Relabel { mirror_image, source_image } => PullActionView::Relabel {
                mirror_image: mirror_image@,
                source_image: source_image@,
            },
            PullAction::Cleanup { mirror_image } => PullActionView::Cleanup {
                mirror_image: mirror_image@,
            },
        }
    }
}

/// The executor's report on the one step it was asked to perform.
pub enum StepOutcome {
    Success,
    Failure { error: String },
}

#[verifier::ext_equal]
pub enum StepOutcomeView {
    Success,
    Failure { error: Seq<char> },
}

impl View for StepOutcome {
    type V = StepOutcomeView;

    open spec fn view(&self) -> StepOutcomeView {
        match self {
            StepOutcome::Success => StepOutcomeView::Success,
            StepOutcome::Failure { error } => StepOutcomeView::Failure { error: error@ },
        }
    }
}

/// Where a fetch-and-relabel run stands.
pub enum PullPhase {
    Fetching,
    Relabeling,
    CleaningUp,
    Succeeded,
    Failed(DockermirError),
}

#[verifier::ext_equal]
pub enum PullPhaseView {
    Fetching,
    Relabeling,
    CleaningUp,
    Succeeded,
    Failed(ErrorView),
}

impl View for PullPhase {
    type V = PullPhaseView;

    open spec fn view(&self) -> PullPhaseView {
        match self {
            PullPhase::Fetching => PullPhaseView::Fetching,
            PullPhase::Relabeling => PullPhaseView::Relabeling,
            PullPhase::CleaningUp => PullPhaseView::CleaningUp,
            PullPhase::Succeeded => PullPhaseView::Succeeded,
            PullPhase::Failed(e) => PullPhaseView::Failed(e@),
        }
    }
}

/// The transition relation of a run: each successful step enables the next;
/// a failed fetch ends the run with `FetchError` and a failed relabel with
/// `RelabelError` (the fetched artifact is intentionally left in place); a
/// failed cleanup ends it with `CleanupError`, the relabel not rolled back.
/// Outcomes reported against a finished run change nothing.
pub open spec fn pull_step(
    input: PullInputView,
    phase: PullPhaseView,
    outcome: StepOutcomeView,
) -> PullPhaseView {
    match (phase, outcome) {
        (PullPhaseView::Fetching, StepOutcomeView::Success) => PullPhaseView::Relabeling,
        (PullPhaseView::Fetching, StepOutcomeView::Failure { error }) => PullPhaseView::Failed(
            ErrorView::FetchError {
                source_image: input.source_image,
                mirror_image: input.mirror_image,
                error,
            },
        ),
        (PullPhaseView::Relabeling, StepOutcomeView::Success) => PullPhaseView::CleaningUp,
        (PullPhaseView::Relabeling, StepOutcomeView::Failure { error }) => PullPhaseView::Failed(
            ErrorView::RelabelError {
                source_image: input.source_image,
                mirror_image: input.mirror_image,
                error,
            },
        ),
        (PullPhaseView::CleaningUp, StepOutcomeView::Success) => PullPhaseView::Succeeded,
        (PullPhaseView::CleaningUp, StepOutcomeView::Failure { error }) => PullPhaseView::Failed(
            ErrorView::CleanupError { image: input.mirror_image, error },
        ),
        (_, _) => phase,
    }
}

/// The executor instruction each waiting phase calls for; a finished run
/// calls for none.
pub open spec fn spec_pull_action(input: PullInputView, phase: PullPhaseView) -> Option<
    PullActionView,
> {
    match phase {
        PullPhaseView::Fetching => Option::Some(
            PullActionView::Fetch { mirror_image: input.mirror_image },
        ),
        PullPhaseView::Relabeling => Option::Some(
            PullActionView::Relabel {
                mirror_image: input.mirror_image,
                source_image: input.source_image,
            },
        ),
        PullPhaseView::CleaningUp => Option::Some(
            PullActionView::Cleanup { mirror_image: input.mirror_image },
        ),
        PullPhaseView::Succeeded => Option::None,
        PullPhaseView::Failed(_) => Option::None,
    }
}

/// A fetch-and-relabel run in progress.
pub struct PullRun {
    input: DockermirPullInput,
    phase: PullPhase,
}

#[verifier::ext_equal]
pub struct PullRunView {
    pub input: PullInputView,
    pub phase: PullPhaseView,
}

impl View for PullRun {
    type V = PullRunView;

    closed spec fn view(&self) -> PullRunView {
        PullRunView { input: self.input@, phase: self.phase@ }
    }
}

impl PullRun {
    /// A fresh run: nothing has been fetched yet.
    pub fn new(input: DockermirPullInput) -> (r: PullRun)
        ensures
            r@.input == input@,
            r@.phase == PullPhaseView::Fetching,
    {
        PullRun { input, phase: PullPhase::Fetching }
    }

    /// True once the run has a result.
    pub fn finished(&self) -> (b: bool)
        ensures
            b == (self@.phase is Succeeded || self@.phase is Failed),
    {
        match self.phase {
            PullPhase::Succeeded => true,
            PullPhase::Failed(_) => true,
            _ => false,
        }
    }

    /// The next executor instruction, or nothing once finished.
    pub fn pending_action(&self) -> (a: Option<PullAction>)
        ensures
            match a {
                Option::Some(act) => spec_pull_action(self@.input, self@.phase) == Option::Some(
                    act@,
                ),
                Option::None => spec_pull_action(self@.input, self@.phase) is None,
            },
    {
        match &self.phase {
            PullPhase::Fetching => Option::Some(
                PullAction::Fetch { mirror_image: self.input.mirror_image.clone() },
            ),
            PullPhase::Relabeling => Option::Some(
                PullAction::Relabel {
                    mirror_image: self.input.mirror_image.clone(),
                    source_image: self.input.source_image.clone(),
                },
            ),
            PullPhase::CleaningUp => Option::Some(
                PullAction::Cleanup { mirror_image: self.input.mirror_image.clone() },
            ),
            PullPhase::Succeeded => Option::None,
            PullPhase::Failed(_) => Option::None,
        }
    }

    /// Feeds the executor's outcome for the pending action back in.
    pub fn step(&mut self, outcome: StepOutcome)
        ensures
            final(self)@.input == old(self)@.input,
            final(self)@.phase == pull_step(old(self)@.input, old(self)@.phase, outcome@),
    {
        match outcome {
            StepOutcome::Success => {
                match self.phase {
                    PullPhase::Fetching => {
                        self.phase = PullPhase::Relabeling;
                    },
                    PullPhase::Relabeling => {
                        self.phase = PullPhase::CleaningUp;
                    },
                    PullPhase::CleaningUp => {
                        self.phase = PullPhase::Succeeded;
                    },
                    _ => {},
                }
            },
            StepOutcome::Failure { error } => {
                match self.phase {
                    PullPhase::Fetching => {
                        self.phase = PullPhase::Failed(
                            DockermirError::FetchError {
                                source_image: self.input.source_image.clone(),
                                mirror_image: self.input.mirror_image.clone(),
                                error,
                            },
                        );
                    },
                    PullPhase::Relabeling => {
                        self.phase = PullPhase::Failed(
                            DockermirError::RelabelError {
                                source_image: self.input.source_image.clone(),
                                mirror_image: self.input.mirror_image.clone(),
                                error,
                            },
                        );
                    },
                    PullPhase::CleaningUp => {
                        self.phase = PullPhase::Failed(
                            DockermirError::CleanupError {
                                image: self.input.mirror_image.clone(),
                                error,
                            },
                        );
                    },
                    _ => {},
                }
            },
        }
    }

    /// The result of a finished run.
    pub fn into_result(self) -> (r: Result<(), DockermirError>)
        requires
            self@.phase is Succeeded || self@.phase is Failed,
        ensures
            match r {
                Result::Ok(u) => self@.phase is Succeeded,
                Result::Err(e) => self@.phase == PullPhaseView::Failed(e@),
            },
    {
        match self.phase {
            PullPhase::Succeeded => Result::Ok(()),
            PullPhase::Failed(e) => Result::Err(e),
            _ => vstd::pervasive::unreached(),
        }
    }
}

/// The phase after a whole sequence of executor outcomes.
pub open spec fn pull_run_fold(
    input: PullInputView,
    phase: PullPhaseView,
    outcomes: Seq<StepOutcomeView>,
) -> PullPhaseView
    decreases outcomes.len(),
{
    if outcomes.len() == 0 {
        phase
    } else {
        pull_run_fold(input, pull_step(input, phase, outcomes[0]), outcomes.skip(1))
    }
}

proof fn lemma_failed_absorbing(
    input: PullInputView,
    e: ErrorView,
    outcomes: Seq<StepOutcomeView>,
)
    ensures
        pull_run_fold(input, PullPhaseView::Failed(e), outcomes) == PullPhaseView::Failed(e),
    decreases outcomes.len(),
{
    if outcomes.len() > 0 {
        lemma_failed_absorbing(input, e, outcomes.skip(1));
    }
}

/// If the fetch step fails, the run is over with `FetchError` carrying both
/// identifiers and the cause, the finished run calls for no further
/// instruction — so relabel and cleanup are never instructed — and no
/// sequence of later outcomes can move it.
pub proof fn lemma_fetch_failure_aborts(
    input: PullInputView,
    error: Seq<char>,
    outcomes: Seq<StepOutcomeView>,
)
    ensures
        pull_step(input, PullPhaseView::Fetching, StepOutcomeView::Failure { error })
            == PullPhaseView::Failed(
            ErrorView::FetchError {
                source_image: input.source_image,
                mirror_image: input.mirror_image,
                error,
            },
        ),
        spec_pull_action(
            input,
            pull_step(input, PullPhaseView::Fetching, StepOutcomeView::Failure { error }),
        ) is None,
        pull_run_fold(
            input,
            pull_step(input, PullPhaseView::Fetching, StepOutcomeView::Failure { error }),
            outcomes,
        ) == pull_step(input, PullPhaseView::Fetching, StepOutcomeView::Failure { error }),
{
    lemma_failed_absorbing(
        input,
        ErrorView::FetchError {
            source_image: input.source_image,
            mirror_image: input.mirror_image,
            error,
        },
        outcomes,
    );
}

/// The pull task: resolve the mirror for an image, then fetch, relabel and
/// clean up through the external executor.
pub struct DockerPullTask {
    image: String,
    config: RushGetConfig,
}

#[verifier::ext_equal]
pub struct PullTaskView {
    pub image: Seq<char>,
    pub config: crate::config::ConfigView,
}

impl View for DockerPullTask {
    type V = PullTaskView;

    closed spec fn view(&self) -> PullTaskView {
        PullTaskView { image: self.image@, config: self.config@ }
    }
}

impl DockerPullTask {
    pub fn new(config: RushGetConfig, image: String) -> (r: DockerPullTask)
        ensures
            r@.image == image@,
            r@.config == config@,
    {
        DockerPullTask { image, config }
    }

    /// Resolves the mirror and begins the run. A document with no matching
    /// rule aborts the whole task with `MismatchAllRule`, and an invalid
    /// pattern with `InvalidPattern`, before any external call is made.
    pub fn start(&self) -> (r: Result<PullRun, DockermirError>)
        ensures
            ({
                let groups = self@.config.docker.ruleset;
                let scan = scan_doc(self@.image, groups, 0);
                match r {
                    Result::Ok(run) => scan matches DocScan::Hit { g, r: ri }
                        && run@.phase == PullPhaseView::Fetching
                        && run@.input.source_image == self@.image
                        && run@.input.mirror_image == mirror_for(
                            self@.image,
                            groups[g],
                            groups[g].rules[ri],
                        ),
                    Result::Err(e) => match scan {
                        DocScan::Hit { .. } => false,
                        DocScan::Invalid { g, r: ri } => e@ == (ErrorView::InvalidPattern {
                            rule_name: groups[g].rules[ri].name,
                        }),
                        DocScan::Miss => e@ == ErrorView::MismatchAllRule,
                    },
                }
            }),
    {
        match MirrorRegistry::map_mirror_by_configuration(self.image.as_str(), &self.config) {
            Result::Ok(data) => Result::Ok(
                PullRun::new(
                    DockermirPullInput::new(self.image.clone(), data.mirror_image),
                ),
            ),
            Result::Err(e) => Result::Err(e),
        }
    }
}

/// The check-only task: resolves and reports; a match and a no-match are
/// both benign completions, so that checking many identifiers in a script
/// does not abort on the first unmatched one.
pub struct DockerCheckTask {
    image: String,
    config: RushGetConfig,
}

#[verifier::ext_equal]
pub struct CheckTaskView {
    pub image: Seq<char>,
    pub config: crate::config::ConfigView,
}

impl View for DockerCheckTask {
    type V = CheckTaskView;

    closed spec fn view(&self) -> CheckTaskView {
        CheckTaskView { image: self.image@, config: self.config@ }
    }
}

impl DockerCheckTask {
    pub fn new(config: RushGetConfig, image: String) -> (r: DockerCheckTask)
        ensures
            r@.image == image@,
            r@.config == config@,
    {
        DockerCheckTask { image, config }
    }

    /// The informational outcome: the resolution itself.
    pub fn outcome(&self) -> (r: Result<ImageMirrorData, DockermirError>)
        ensures
            resolution_spec(self@.image, self@.config.docker.ruleset, r),
    {
        MirrorRegistry::map_mirror_by_configuration(self.image.as_str(), &self.config)
    }

    /// The task itself never errors, whatever the resolution reports.
    pub fn run(self) -> (r: Result<(), DockermirError>)
        ensures
            r is Ok,
    {
        let _ = self.outcome();
        Result::Ok(())
    }
}

/// The argument vector of the container-runtime command for one executor
/// instruction.
pub open spec fn spec_command(a: PullActionView) -> Seq<Seq<char>> {
    match a {
        PullActionView::Fetch { mirror_image } => seq!["pull"@, mirror_image],
        PullActionView::Relabel { mirror_image, source_image } => seq![
            "tag"@,
            mirror_image,
            source_image,
        ],
        PullActionView::Cleanup { mirror_image } => seq!["rmi"@, mirror_image],
    }
}

/// Plans the container-runtime command lines the executor runs; the process
/// invocation itself happens outside the library.
pub struct DockerExec {}

impl DockerExec {
    pub fn new() -> (r: DockerExec) {
        DockerExec {  }
    }

    /// The arguments, after the runtime binary's own name, that perform one
    /// instruction: `pull <mirror>`, `tag <mirror> <source>`, `rmi <mirror>`.
    pub fn command_for(&self, action: &PullAction) -> (argv: Vec<String>)
        ensures
            argv@.map_values(|s: String| s@) == spec_command(action@),
    {
        let mut argv: Vec<String> = Vec::new();
        match action {
            PullAction::Fetch { mirror_image } => {
                argv.push(String::from_str("pull"));
                argv.push(mirror_image.clone());
            },
            PullAction::Relabel { mirror_image, source_image } => {
                argv.push(String::from_str("tag"));
                argv.push(mirror_image.clone());
                argv.push(source_image.clone());
            },
            PullAction::Cleanup { mirror_image } => {
                argv.push(String::from_str("rmi"));
                argv.push(mirror_image.clone());
            },
        }
        proof {
            assert(argv@.map_values(|s: String| s@) =~= spec_command(action@));
        }
        argv
    }
}

} // verus!
