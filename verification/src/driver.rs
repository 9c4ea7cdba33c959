//! The facade's decision logic: one compilation run as a state machine.
//!
//! A run is a strict sequential composition — build the module, run the pass
//! pipeline, pass the verifier gate, emit the artifact — with every failure
//! surfaced exactly once and no partial result. The toolchain work itself
//! (module construction, pass execution, verification, serialization, JIT
//! construction) is performed by an embedding runner: [`step`] decides, from
//! the current [`Stage`] and the runner's [`Event`] report, the next stage
//! and the next [`Action`] the runner must carry out.

use vstd::prelude::*;

use crate::emit::Artifact;
use crate::emit::CompileError;
use crate::emit::EmissionMode;
use crate::emit::RuntimeLibraries;
use crate::emit::JIT_OPT_LEVEL;
use crate::passes::mandatory_pass_seq;
use crate::passes::optimization_pass_seq;
use crate::passes::pipeline_pass_seq;
use crate::passes::pipeline_passes;

verus! {

/// One compilation request: the emission mode plus the options forwarded
/// opaquely to module construction.
#[derive(Debug, Clone, PartialEq, Eq)]
pub struct Request {
    /// Text or executable emission.
    pub mode: EmissionMode,
    /// The caller's optimization flag. Consulted only for text emission;
    /// executable emission optimizes unconditionally.
    pub optimized: bool,
    /// Forwarded to the module builder: route the designated print-like
    /// operation to `print_fd`.
    pub main_print: bool,
    /// Forwarded to the module builder: the file descriptor for `main_print`.
    pub print_fd: i32,
    /// Forwarded to the module builder: an optional metering budget.
    pub available_gas: Option<usize>,
}

/// Whether the optional optimization block runs for this request:
/// executable emission always optimizes, text emission follows the caller's
/// flag. No field of the request can switch optimization off for an
/// executable run.
pub open spec fn runs_optimizations(r: Request) -> bool {
    r.mode is Executable || r.optimized
}

/// Where a run stands. Control flows strictly one direction; the two
/// terminal stages accept no further events.
#[derive(Clone, Copy, PartialEq, Eq, Structural, Debug)]
pub enum Stage {
    /// Module construction is pending.
    Building,
    /// The pass pipeline is running.
    Lowering,
    /// The verifier gate is pending.
    Verifying,
    /// Artifact emission is pending; reached only after the verifier
    /// accepted the module.
    Emitting,
    /// An artifact was produced. Terminal.
    Done,
    /// An error was surfaced. Terminal.
    Failed,
}

/// The runner's report on the outcome of the action it was asked to perform.
#[derive(Debug, Clone, PartialEq, Eq)]
pub enum Event {
    /// Module construction succeeded.
    ModuleBuilt,
    /// Module construction failed with this message.
    BuildFailed(String),
    /// Every pass ran, under the pipeline's strict verification.
    PassesRan,
    /// A pass failed; the toolchain surfaced this message.
    PassRunFailed(String),
    /// The verifier gate accepted the fully lowered module.
    VerifierAccepted,
    /// The verifier gate rejected it.
    VerifierRejected,
    /// Text emission produced this serialized module.
    TextReady(String),
    /// The JIT executable unit was constructed.
    ExecutableReady,
    /// Emission failed with this message.
    EmitFailed(String),
}

/// What the runner must do next.
#[derive(Debug, Clone, PartialEq, Eq)]
pub enum Action {
    /// Construct the module from the program, with the forwarded options.
    BuildModule { main_print: bool, print_fd: i32, available_gas: Option<usize> },
    /// Run exactly these passes, in exactly this order, with the pipeline's
    /// strict verification switched on.
    RunPasses { passes: Vec<crate::passes::Pass>, enable_verifier: bool },
    /// Check structural well-formedness of the fully lowered module.
    VerifyModule,
    /// Serialize the verified module to text, with or without debug
    /// annotations.
    EmitText { debug_info: bool },
    /// Construct the JIT executable unit at this optimization level, linked
    /// against exactly these two runtime libraries, in this order.
    LinkExecutable { opt_level: u32, runner_utils: String, support: String },
    /// The run is over: hand this artifact to the caller.
    Finish(Artifact),
    /// The run is over: surface this error. No artifact exists.
    Abort(CompileError),
}

/// Builds a text-emission request: optimization is caller-controlled, debug
/// annotations are an emission concern only.
pub fn compile_request(
    optimized: bool,
    debug_info: bool,
    main_print: bool,
    print_fd: i32,
    available_gas: Option<usize>,
) -> (r: Request)
    ensures
        r.mode == (EmissionMode::Text { debug_info }),
        r.optimized == optimized,
        runs_optimizations(r) == optimized,
        r.main_print == main_print,
        r.print_fd == print_fd,
        r.available_gas == available_gas,
{
    Request {
        mode: EmissionMode::Text { debug_info },
        optimized,
        main_print,
        print_fd,
        available_gas,
    }
}

/// Builds an executable-emission request. The optimization block is always
/// included — this constructor offers no flag to disable it — and the JIT
/// level is fixed at [`JIT_OPT_LEVEL`].
pub fn execute_request(
    main_print: bool,
    print_fd: i32,
    available_gas: Option<usize>,
    libraries: RuntimeLibraries,
) -> (r: Request)
    ensures
        r.mode == (EmissionMode::Executable { opt_level: JIT_OPT_LEVEL, libraries }),
        runs_optimizations(r),
        r.main_print == main_print,
        r.print_fd == print_fd,
        r.available_gas == available_gas,
{
    Request {
        mode: EmissionMode::Executable { opt_level: JIT_OPT_LEVEL, libraries },
        optimized: true,
        main_print,
        print_fd,
        available_gas,
    }
}

/// The protocol between the driver and its runner: which reports are
/// possible outcomes of the action pending at a stage. The terminal stages
/// expect nothing.
pub open spec fn event_expected(stage: Stage, mode: EmissionMode, event: Event) -> bool {
    match stage {
        Stage::Building => event is ModuleBuilt || event is BuildFailed,
        Stage::Lowering => event is PassesRan || event is PassRunFailed,
        Stage::Verifying => event is VerifierAccepted || event is VerifierRejected,
        Stage::Emitting => (match mode {
            EmissionMode::Text { .. } => event is TextReady,
            EmissionMode::Executable { .. } => event is ExecutableReady,
        }) || event is EmitFailed,
        Stage::Done => false,
        Stage::Failed => false,
    }
}

/// The successor stage for every stage and report. A report that is not a
/// possible outcome of the pending action is a protocol breach and fails the
/// run; the terminal stages accept no report at all.
pub open spec fn next_stage(stage: Stage, event: Event) -> Stage {
    match stage {
        Stage::Building => if event is ModuleBuilt {
            Stage::Lowering
        } else {
            Stage::Failed
        },
        Stage::Lowering => if event is PassesRan {
            Stage::Verifying
        } else {
            Stage::Failed
        },
        Stage::Verifying => if event is VerifierAccepted {
            Stage::Emitting
        } else {
            Stage::Failed
        },
        Stage::Emitting => if event is TextReady || event is ExecutableReady {
            Stage::Done
        } else {
            Stage::Failed
        },
        Stage::Done => Stage::Failed,
        Stage::Failed => Stage::Failed,
    }
}

/// The first action of every run: construct the module with the options the
/// request forwards.
pub fn initial_action(req: &Request) -> (a: Action)
    ensures
        a == (Action::BuildModule {
            main_print: req.main_print,
            print_fd: req.print_fd,
            available_gas: req.available_gas,
        }),
{
    Action::BuildModule {
        main_print: req.main_print,
        print_fd: req.print_fd,
        available_gas: req.available_gas,
    }
}

/// Advances the run: from the current stage and the runner's report, decide
/// the next stage and the next action.
///
/// This is the whole of the facade's decision logic. A successful build
/// starts the pass pipeline for the request's effective optimization policy;
/// a completed pipeline is sent to the verifier gate; an accepted module is
/// emitted in the request's mode; a rejected module aborts the run with the
/// generic verification error; every collaborator failure aborts the run
/// with the matching error and no artifact.
pub fn step(stage: Stage, req: &Request, event: Event) -> (r: (Stage, Action))
    requires
        event_expected(stage, req.mode, event),
    ensures
        r.0 == next_stage(stage, event),
        stage is Building && event is ModuleBuilt ==> (r.1 matches Action::RunPasses {
            passes,
            enable_verifier,
        } && passes@ == pipeline_pass_seq(runs_optimizations(*req)) && enable_verifier),
        stage is Building ==> (event matches Event::BuildFailed(m) ==> r.1 == (Action::Abort(
            CompileError::Construction(m),
        ))),
        stage is Lowering && event is PassesRan ==> r.1 is VerifyModule,
        stage is Lowering ==> (event matches Event::PassRunFailed(m) ==> r.1 == (Action::Abort(
            CompileError::Pipeline(m),
        ))),
        stage is Verifying && event is VerifierAccepted ==> (req.mode
            matches EmissionMode::Text { debug_info } ==> r.1 == (Action::EmitText {
            debug_info,
        })),
        stage is Verifying && event is VerifierAccepted ==> (req.mode
            matches EmissionMode::Executable { opt_level, libraries } ==> r.1
            == (Action::LinkExecutable {
            opt_level,
            runner_utils: libraries.runner_utils,
            support: libraries.support,
        })),
        stage is Verifying && event is VerifierRejected ==> r.1 == (Action::Abort(
            CompileError::Verification,
        )),
        stage is Emitting ==> (event matches Event::TextReady(t) ==> r.1 == (Action::Finish(
            Artifact::Text(t),
        ))),
        stage is Emitting && event is ExecutableReady ==> r.1 == (Action::Finish(
            Artifact::Executable,
        )),
        stage is Emitting ==> (event matches Event::EmitFailed(m) ==> r.1 == (Action::Abort(
            CompileError::Emission(m),
        ))),
        r.1 is Finish ==> stage is Emitting && r.0 is Done,
        r.1 is Abort ==> r.0 is Failed,
        r.0 is Emitting ==> stage is Verifying && event is VerifierAccepted,
{
    match (stage, event) {
        (Stage::Building, Event::ModuleBuilt) => {
            let optimize = match &req.mode {
                EmissionMode::Text { .. } => req.optimized,
                EmissionMode::Executable { .. } => true,
            };
            (
                Stage::Lowering,
                Action::RunPasses { passes: pipeline_passes(optimize), enable_verifier: true },
            )
        },
        (Stage::Building, Event::BuildFailed(m)) => {
            (Stage::Failed, Action::Abort(CompileError::Construction(m)))
        },
        (Stage::Lowering, Event::PassesRan) => (Stage::Verifying, Action::VerifyModule),
        (Stage::Lowering, Event::PassRunFailed(m)) => {
            (Stage::Failed, Action::Abort(CompileError::Pipeline(m)))
        },
        (Stage::Verifying, Event::VerifierAccepted) => {
            match &req.mode {
                EmissionMode::Text { debug_info } => {
                    (Stage::Emitting, Action::EmitText { debug_info: *debug_info })
                },
                EmissionMode::Executable { opt_level, libraries } => {
                    (
                        Stage::Emitting,
                        Action::LinkExecutable {
                            opt_level: *opt_level,
                            runner_utils: libraries.runner_utils.clone(),
                            support: libraries.support.clone(),
                        },
                    )
                },
            }
        },
        (Stage::Verifying, Event::VerifierRejected) => {
            (Stage::Failed, Action::Abort(CompileError::Verification))
        },
        (Stage::Emitting, Event::TextReady(t)) => {
            (Stage::Done, Action::Finish(Artifact::Text(t)))
        },
        (Stage::Emitting, Event::ExecutableReady) => {
            (Stage::Done, Action::Finish(Artifact::Executable))
        },
        (Stage::Emitting, Event::EmitFailed(m)) => {
            (Stage::Failed, Action::Abort(CompileError::Emission(m)))
        },
        _ => vstd::pervasive::unreached(),
    }
}

/// The stage a run reaches after a sequence of reports, starting from
/// `begin`.
pub open spec fn run_stages(begin: Stage, events: Seq<Event>) -> Stage
    decreases events.len(),
{
    if events.len() == 0 {
        begin
    } else {
        run_stages(next_stage(begin, events[0]), events.skip(1))
    }
}

/// How far along a run a stage lies; the terminal stages lie past every
/// working stage.
pub open spec fn stage_rank(stage: Stage) -> int {
    match stage {
        Stage::Building => 0,
        Stage::Lowering => 1,
        Stage::Verifying => 2,
        Stage::Emitting => 3,
        Stage::Done => 4,
        Stage::Failed => 5,
    }
}

/// Control flows strictly one direction: every report moves a run that has
/// not already failed strictly forward, so there is no feedback loop and no
/// stage is ever revisited.
pub proof fn lemma_run_flows_one_direction(stage: Stage, event: Event)
    requires
        !(stage is Failed),
    ensures
        stage_rank(next_stage(stage, event)) > stage_rank(stage),
{
}

/// A failed run stays failed: no later report resurrects it, and no
/// artifact is produced after a failure.
pub proof fn lemma_failed_absorbs(events: Seq<Event>)
    ensures
        run_stages(Stage::Failed, events) is Failed,
    decreases events.len(),
{
    if events.len() > 0 {
        lemma_failed_absorbs(events.skip(1));
    }
}

/// Verification failure never produces an artifact: a run in which the
/// verifier gate rejected the module — at whatever point the rejection
/// occurred — can only end failed, never in the completed stage that hands
/// an artifact to the caller.
pub proof fn lemma_rejection_precludes_artifact(begin: Stage, events: Seq<Event>, i: int)
    requires
        0 <= i < events.len(),
        events[i] is VerifierRejected,
    ensures
        run_stages(begin, events) is Failed,
        !(run_stages(begin, events) is Done),
    decreases events.len(),
{
    if i == 0 {
        assert(next_stage(begin, events[0]) is Failed);
        lemma_failed_absorbs(events.skip(1));
    } else {
        assert(events.skip(1)[i - 1] == events[i]);
        lemma_rejection_precludes_artifact(next_stage(begin, events[0]), events.skip(1), i - 1);
    }
}

/// Verification guards emission: a run that begins no later than the
/// verifying stage can only finish with an artifact if the verifier
/// accepted the module at some point. An unverified module never reaches
/// the artifact emitter.
pub proof fn lemma_artifact_requires_verifier_acceptance(begin: Stage, events: Seq<Event>)
    requires
        begin is Building || begin is Lowering || begin is Verifying,
        run_stages(begin, events) is Done,
    ensures
        exists|i: int| 0 <= i < events.len() && events[i] is VerifierAccepted,
    decreases events.len(),
{
    let first = next_stage(begin, events[0]);
    if begin is Verifying && events[0] is VerifierAccepted {
        assert(events[0] is VerifierAccepted);
    } else if first is Failed {
        lemma_failed_absorbs(events.skip(1));
    } else {
        lemma_artifact_requires_verifier_acceptance(first, events.skip(1));
        let j = choose|j: int|
            0 <= j < events.skip(1).len() && events.skip(1)[j] is VerifierAccepted;
        assert(events.skip(1)[j] == events[j + 1]);
        assert(events[j + 1] is VerifierAccepted);
    }
}

/// Executable emission always runs the optimization block: no request can
/// switch it off, and the pipeline it triggers is the mandatory sequence
/// followed by every optimization pass.
pub proof fn lemma_executable_always_optimizes(req: Request)
    requires
        req.mode is Executable,
    ensures
        runs_optimizations(req),
        pipeline_pass_seq(runs_optimizations(req)) == mandatory_pass_seq()
            + optimization_pass_seq(),
{
}

} // verus!
