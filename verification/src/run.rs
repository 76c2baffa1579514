//! The pipeline of one exercise.
//!
//! A mode fixes the steps of a run and their order. The caller performs one
//! step at a time and hands back what came of it; the functions here say
//! which step is next and what state the run is in. A step that fails ends
//! the run: no later step is asked for, and nothing of what was done before
//! counts as success.

use crate::exercise::{Exercise, Mode, ModeView};
use vstd::prelude::*;
use vstd::string::StringExecFns;

verus! {

/// One step of a pipeline: one request to the outside.
#[derive(Clone, Copy, Debug, PartialEq, Eq, Structural)]
pub enum Step {
    /// Copy the exercise and its inputs into the working crate.
    Stage,
    /// Compile the working crate.
    Compile,
    /// Execute the program on its inputs and save the witness.
    Execute,
    /// Create a proof from the program and the witness.
    Prove,
    /// Write the verification key and verify the proof against it.
    Verify,
    /// Run the tests written in the exercise.
    Test,
}

/// How far a run has come.
#[derive(Clone, Copy, Debug, PartialEq, Eq, Structural)]
pub enum Phase {
    /// Nothing was done yet.
    Created,
    Staged,
    Compiled,
    Executed,
    Proved,
    Verified,
    Tested,
    /// Every step of the mode succeeded.
    Done,
    /// A step failed.
    Failed,
}

impl Step {
    /// Whether the step's captured output is the output of the run: so it
    /// is for the toolkit's steps, not for staging nor for the prover.
    pub open spec fn yields_output(self) -> bool {
        self == Step::Compile || self == Step::Execute || self == Step::Test
    }

    /// The phase that a run is in once the step has succeeded and more
    /// steps follow.
    pub open spec fn reached(self) -> Phase {
        match self {
            Step::Stage => Phase::Staged,
            Step::Compile => Phase::Compiled,
            Step::Execute => Phase::Executed,
            Step::Prove => Phase::Proved,
            Step::Verify => Phase::Verified,
            Step::Test => Phase::Tested,
        }
    }
}

/// The kinds of failure that end a run.
#[derive(Clone, Copy, Debug, PartialEq, Eq, Structural)]
pub enum FailureKind {
    /// The working crate could not be made ready for the exercise.
    Staging,
    /// The compiler toolkit reported an error in compiling, executing or
    /// running the tests.
    Toolkit,
    /// The prover could not be run, or exited with a failure.
    Prover,
    /// One or more tests of the exercise failed.
    TestFailure,
}

/// The failure of one step.
#[derive(Clone, Debug, PartialEq, Eq)]
pub struct StepError {
    pub kind: FailureKind,
    /// What is shown of the failure.
    pub text: String,
}

/// What a `StepError` stands for.
pub struct StepErrorView {
    pub kind: FailureKind,
    pub text: Seq<char>,
}

impl View for StepError {
    type V = StepErrorView;

    open spec fn view(&self) -> StepErrorView {
        StepErrorView { kind: self.kind, text: self.text@ }
    }
}

/// What a step hands back, as text: its captured output, or its failure.
pub open spec fn result_text(result: Result<String, StepError>) -> Result<Seq<char>, StepErrorView> {
    match result {
        Ok(output) => Ok(output@),
        Err(error) => Err(error@),
    }
}

/// The steps of a mode, in the order in which they run.
pub open spec fn steps_of(mode: ModeView) -> Seq<Step> {
    match mode {
        ModeView::Build => seq![Step::Stage, Step::Compile],
        ModeView::Execute(_) => seq![Step::Stage, Step::Execute],
        ModeView::ProveOnly(_) => seq![Step::Stage, Step::Execute, Step::Prove],
        ModeView::ProveAndVerify(_) => seq![Step::Stage, Step::Execute, Step::Prove, Step::Verify],
        ModeView::Test => seq![Step::Stage, Step::Test],
    }
}

/// The state of a run.
#[derive(Clone, Debug, PartialEq, Eq)]
pub enum RunState {
    /// The first `done` steps succeeded; `output` is what was captured.
    Running { done: usize, output: String },
    /// The step `at` failed with `error`. No step ran after it.
    Failed { at: Step, error: StepError },
}

/// What a `RunState` stands for.
pub enum RunStateView {
    Running { done: nat, output: Seq<char> },
    Failed { at: Step, error: StepErrorView },
}

impl View for RunState {
    type V = RunStateView;

    open spec fn view(&self) -> RunStateView {
        match self {
            RunState::Running { done, output } => RunStateView::Running {
                done: *done as nat,
                output: output@,
            },
            RunState::Failed { at, error } => RunStateView::Failed { at: *at, error: error@ },
        }
    }
}

/// The state of a run before its first step.
pub open spec fn initial() -> RunStateView {
    RunStateView::Running { done: 0, output: Seq::empty() }
}

/// The step that a run of `steps` in `state` asks for next: the first one
/// not yet done, and none once a step has failed or all are done.
pub open spec fn next_step_of(steps: Seq<Step>, state: RunStateView) -> Option<Step> {
    match state {
        RunStateView::Running { done, .. } => if done < steps.len() {
            Some(steps[done as int])
        } else {
            None
        },
        RunStateView::Failed { .. } => None,
    }
}

/// The state after the step that was asked for in `state` came back with
/// `result`. Where no step was asked for, the state stays as it is.
pub open spec fn advanced(
    steps: Seq<Step>,
    state: RunStateView,
    result: Result<Seq<char>, StepErrorView>,
) -> RunStateView {
    match state {
        RunStateView::Running { done, output } => if done < steps.len() {
            match result {
                Ok(text) => RunStateView::Running {
                    done: done + 1,
                    output: if steps[done as int].yields_output() {
                        text
                    } else {
                        output
                    },
                },
                Err(error) => RunStateView::Failed { at: steps[done as int], error },
            }
        } else {
            state
        },
        RunStateView::Failed { .. } => state,
    }
}

/// The state after the steps asked for from `state` on came back with
/// `results`, one after the other.
pub open spec fn ran(
    steps: Seq<Step>,
    state: RunStateView,
    results: Seq<Result<Seq<char>, StepErrorView>>,
) -> RunStateView
    decreases results.len(),
{
    if results.len() == 0 {
        state
    } else {
        ran(steps, advanced(steps, state, results[0]), results.drop_first())
    }
}

/// The phase of a run of `steps` in `state`.
pub open spec fn phase_of(steps: Seq<Step>, state: RunStateView) -> Phase {
    match state {
        RunStateView::Failed { .. } => Phase::Failed,
        RunStateView::Running { done, .. } => if done >= steps.len() {
            Phase::Done
        } else if done == 0 {
            Phase::Created
        } else {
            steps[done - 1].reached()
        },
    }
}

/// How a run ended.
#[derive(Clone, Debug, PartialEq, Eq)]
pub enum PipelineOutcome {
    /// Every step succeeded; what was captured.
    Success { output: String },
    /// The step `at` failed with a failure of `kind`, shown as `cause`.
    /// `upstream` tells whether it was a step before the last one of the
    /// mode, so that the last one was never reached.
    Failure { cause: String, kind: FailureKind, at: Step, upstream: bool },
}

/// What a `PipelineOutcome` stands for.
pub enum PipelineOutcomeView {
    Success { output: Seq<char> },
    Failure { cause: Seq<char>, kind: FailureKind, at: Step, upstream: bool },
}

impl View for PipelineOutcome {
    type V = PipelineOutcomeView;

    open spec fn view(&self) -> PipelineOutcomeView {
        match self {
            PipelineOutcome::Success { output } => PipelineOutcomeView::Success { output: output@ },
            PipelineOutcome::Failure { cause, kind, at, upstream } => PipelineOutcomeView::Failure {
                cause: cause@,
                kind: *kind,
                at: *at,
                upstream: *upstream,
            },
        }
    }
}

/// How a run of `steps` in `state` ended, if it has ended.
pub open spec fn outcome_of(steps: Seq<Step>, state: RunStateView) -> Option<PipelineOutcomeView> {
    match state {
        RunStateView::Running { done, output } => if done >= steps.len() {
            Some(PipelineOutcomeView::Success { output })
        } else {
            None
        },
        RunStateView::Failed { at, error } => Some(
            PipelineOutcomeView::Failure {
                cause: error.text,
                kind: error.kind,
                at,
                upstream: steps.len() == 0 || at != steps.last(),
            },
        ),
    }
}

/// The texts of a list of step results.
pub open spec fn result_texts(results: Seq<Result<String, StepError>>) -> Seq<
    Result<Seq<char>, StepErrorView>,
> {
    results.map_values(|r: Result<String, StepError>| result_text(r))
}

/// A run that has failed stays as it is, whatever comes in.
pub proof fn lemma_failure_is_final(
    steps: Seq<Step>,
    at: Step,
    error: StepErrorView,
    results: Seq<Result<Seq<char>, StepErrorView>>,
)
    ensures
        ran(steps, RunStateView::Failed { at, error }, results) == (RunStateView::Failed {
            at,
            error,
        }),
        next_step_of(steps, RunStateView::Failed { at, error }) is None,
    decreases results.len(),
{
    if results.len() > 0 {
        lemma_failure_is_final(steps, at, error, results.drop_first());
    }
}

/// A run whose steps are all done stays as it is, whatever comes in.
pub proof fn lemma_done_is_final(
    steps: Seq<Step>,
    done: nat,
    output: Seq<char>,
    results: Seq<Result<Seq<char>, StepErrorView>>,
)
    requires
        done >= steps.len(),
    ensures
        ran(steps, RunStateView::Running { done, output }, results) == (RunStateView::Running {
            done,
            output,
        }),
        next_step_of(steps, RunStateView::Running { done, output }) is None,
    decreases results.len(),
{
    if results.len() > 0 {
        lemma_done_is_final(steps, done, output, results.drop_first());
    }
}

/// Taking in a list of results is taking in the first, then the rest.
pub proof fn lemma_ran_first(
    steps: Seq<Step>,
    state: RunStateView,
    results: Seq<Result<Seq<char>, StepErrorView>>,
)
    requires
        results.len() > 0,
    ensures
        ran(steps, state, results) == ran(
            steps,
            advanced(steps, state, results[0]),
            results.skip(1),
        ),
{
    assert(results.drop_first() =~= results.skip(1));
}

/// The first failure decides. Where the results up to `k` are successes and
/// result `k` is a failure, the run has failed at the step that result `k`
/// answers, with that result's failure, whatever the later results are.
pub proof fn lemma_first_failure_decides(
    steps: Seq<Step>,
    done: nat,
    output: Seq<char>,
    results: Seq<Result<Seq<char>, StepErrorView>>,
    k: nat,
)
    requires
        done + k < steps.len(),
        k < results.len(),
        forall|j: int| 0 <= j < k ==> (#[trigger] results[j]) is Ok,
        results[k as int] is Err,
    ensures
        ran(steps, RunStateView::Running { done, output }, results) == (RunStateView::Failed {
            at: steps[(done + k) as int],
            error: results[k as int]->Err_0,
        }),
    decreases k,
{
    let state = RunStateView::Running { done, output };
    let rest = results.drop_first();
    if k == 0 {
        lemma_failure_is_final(steps, steps[done as int], results[0]->Err_0, rest);
    } else {
        assert(results[0] is Ok);
        let next = advanced(steps, state, results[0]);
        assert forall|j: int| 0 <= j < k - 1 implies (#[trigger] rest[j]) is Ok by {
            assert(rest[j] == results[j + 1]);
        }
        assert(rest[k - 1] == results[k as int]);
        lemma_first_failure_decides(steps, done + 1, next->Running_output, rest, (k - 1) as nat);
    }
}

/// Where every step of a mode succeeds, the run is done and has not failed;
/// its output is what the toolkit's step captured, the second step of every
/// mode. Results beyond the last step change nothing.
pub proof fn lemma_success(mode: ModeView, results: Seq<Result<Seq<char>, StepErrorView>>)
    requires
        results.len() >= steps_of(mode).len(),
        forall|j: int| 0 <= j < steps_of(mode).len() ==> (#[trigger] results[j]) is Ok,
    ensures
        ran(steps_of(mode), initial(), results) == (RunStateView::Running {
            done: steps_of(mode).len(),
            output: results[1]->Ok_0,
        }),
        outcome_of(steps_of(mode), ran(steps_of(mode), initial(), results)) == Some(
            PipelineOutcomeView::Success { output: results[1]->Ok_0 },
        ),
{
    let steps = steps_of(mode);
    let s0 = initial();
    assert(results[0] is Ok && results[1] is Ok);
    let s1 = advanced(steps, s0, results[0]);
    let s2 = advanced(steps, s1, results[1]);
    lemma_ran_first(steps, s0, results);
    lemma_ran_first(steps, s1, results.skip(1));
    assert(results.skip(1).skip(1) =~= results.skip(2));
    assert(results.skip(1)[0] == results[1]);
    assert(ran(steps, s0, results) == ran(steps, s2, results.skip(2)));
    if steps.len() == 2 {
        lemma_done_is_final(steps, 2, results[1]->Ok_0, results.skip(2));
    } else {
        assert(results[2] is Ok);
        let s3 = advanced(steps, s2, results[2]);
        lemma_ran_first(steps, s2, results.skip(2));
        assert(results.skip(2).skip(1) =~= results.skip(3));
        assert(results.skip(2)[0] == results[2]);
        if steps.len() == 3 {
            lemma_done_is_final(steps, 3, results[1]->Ok_0, results.skip(3));
        } else {
            assert(results[3] is Ok);
            lemma_ran_first(steps, s3, results.skip(3));
            assert(results.skip(3).skip(1) =~= results.skip(4));
            assert(results.skip(3)[0] == results[3]);
            lemma_done_is_final(steps, 4, results[1]->Ok_0, results.skip(4));
        }
    }
}

/// A run asks for the steps of its mode in their order: after `done`
/// successes the next step is step `done`, and there is none after the last.
pub proof fn lemma_steps_in_order(steps: Seq<Step>, done: nat, output: Seq<char>)
    ensures
        next_step_of(steps, RunStateView::Running { done, output }) == if done < steps.len() {
            Some(steps[done as int])
        } else {
            None
        },
{
}

/// The steps of `mode`, in the order in which they run.
pub fn plan(mode: &Mode) -> (steps: Vec<Step>)
    ensures
        steps@ == steps_of(mode@),
{
    let mut steps: Vec<Step> = Vec::new();
    steps.push(Step::Stage);
    match mode {
        Mode::Build => {
            steps.push(Step::Compile);
        },
        Mode::Execute(_) => {
            steps.push(Step::Execute);
        },
        Mode::ProveOnly(_) => {
            steps.push(Step::Execute);
            steps.push(Step::Prove);
        },
        Mode::ProveAndVerify(_) => {
            steps.push(Step::Execute);
            steps.push(Step::Prove);
            steps.push(Step::Verify);
        },
        Mode::Test => {
            steps.push(Step::Test);
        },
    }
    assert(steps@ =~= steps_of(mode@));
    steps
}

/// The state of a run before its first step.
pub fn start() -> (state: RunState)
    ensures
        state@ == initial(),
{
    RunState::Running { done: 0, output: String::new() }
}

/// The step to perform next in a run of `mode` that is in `state`, if
/// there is one.
pub fn next_step(mode: &Mode, state: &RunState) -> (next: Option<Step>)
    ensures
        next == next_step_of(steps_of(mode@), state@),
{
    let steps = plan(mode);
    match state {
        RunState::Running { done, .. } => if *done < steps.len() {
            Some(steps[*done])
        } else {
            None
        },
        RunState::Failed { .. } => None,
    }
}

/// Takes in what came of the step that `next_step` asked for in `state`.
pub fn advance(mode: &Mode, state: RunState, result: Result<String, StepError>) -> (after:
    RunState)
    ensures
        after@ == advanced(steps_of(mode@), state@, result_text(result)),
{
    let steps = plan(mode);
    match state {
        RunState::Running { done, output } => if done < steps.len() {
            match result {
                Ok(text) => {
                    let step = steps[done];
                    let captured = match step {
                        Step::Compile | Step::Execute | Step::Test => text,
                        _ => output,
                    };
                    RunState::Running { done: done + 1, output: captured }
                },
                Err(error) => RunState::Failed { at: steps[done], error },
            }
        } else {
            RunState::Running { done, output }
        },
        RunState::Failed { at, error } => RunState::Failed { at, error },
    }
}

/// A copy of `result`.
fn clone_result(result: &Result<String, StepError>) -> (copy: Result<String, StepError>)
    ensures
        result_text(copy) == result_text(*result),
{
    match result {
        Ok(text) => Ok(text.clone()),
        Err(error) => Err(StepError { kind: error.kind, text: error.text.clone() }),
    }
}

/// Runs the pipeline of `exercise` over `results`: what came of its steps,
/// in the order in which they were asked for. Results that follow a failure
/// or the last step are not looked at.
pub fn run(exercise: &Exercise, results: &Vec<Result<String, StepError>>) -> (state: RunState)
    ensures
        state@ == ran(steps_of(exercise.mode@), initial(), result_texts(results@)),
{
    let ghost steps = steps_of(exercise.mode@);
    let ghost all = result_texts(results@);
    let mut state = start();
    let mut i: usize = 0;
    proof {
        assert(all.skip(0) =~= all);
    }
    while i < results.len()
        invariant
            i <= results.len(),
            steps == steps_of(exercise.mode@),
            all == result_texts(results@),
            ran(steps, initial(), all) == ran(steps, state@, all.skip(i as int)),
        decreases results.len() - i,
    {
        let result = clone_result(&results[i]);
        proof {
            assert(all.skip(i as int)[0] == result_text(result));
            assert(all.skip(i as int).drop_first() =~= all.skip(i + 1));
        }
        state = advance(&exercise.mode, state, result);
        i += 1;
    }
    state
}

/// How a run of `mode` that is in `state` ended, if it has ended.
pub fn outcome(mode: &Mode, state: &RunState) -> (ended: Option<PipelineOutcome>)
    ensures
        match outcome_of(steps_of(mode@), state@) {
            Some(o) => ended matches Some(e) && e@ == o,
            None => ended is None,
        },
{
    let steps = plan(mode);
    match state {
        RunState::Running { done, output } => if *done >= steps.len() {
            Some(PipelineOutcome::Success { output: output.clone() })
        } else {
            None
        },
        RunState::Failed { at, error } => {
            let upstream = steps.len() == 0 || *at != steps[steps.len() - 1];
            Some(
                PipelineOutcome::Failure {
                    cause: error.text.clone(),
                    kind: error.kind,
                    at: *at,
                    upstream,
                },
            )
        },
    }
}

/// The phase of a run of `mode` that is in `state`.
pub fn phase(mode: &Mode, state: &RunState) -> (phase: Phase)
    ensures
        phase == phase_of(steps_of(mode@), state@),
{
    let steps = plan(mode);
    match state {
        RunState::Failed { .. } => Phase::Failed,
        RunState::Running { done, .. } => if *done >= steps.len() {
            Phase::Done
        } else if *done == 0 {
            Phase::Created
        } else {
            match steps[*done - 1] {
                Step::Stage => Phase::Staged,
                Step::Compile => Phase::Compiled,
                Step::Execute => Phase::Executed,
                Step::Prove => Phase::Proved,
                Step::Verify => Phase::Verified,
                Step::Test => Phase::Tested,
            }
        },
    }
}

/// The program that undoes the local edits of an exercise.
pub const RESET_PROGRAM: &'static str = "git";

/// The arguments with which `RESET_PROGRAM` stashes the local edits of the
/// file at `path`.
pub open spec fn reset_args_of(path: Seq<char>) -> Seq<Seq<char>> {
    seq!["stash"@, "--"@, path]
}

/// The arguments with which `RESET_PROGRAM` undoes the local edits of the
/// source file of `exercise`. Whether the program could be started is all
/// that the caller reports; it does not try again.
pub fn reset(exercise: &Exercise) -> (args: Vec<String>)
    ensures
        crate::text::texts(args@) == reset_args_of(exercise.path@),
{
    let mut args: Vec<String> = Vec::new();
    args.push(String::from_str("stash"));
    args.push(String::from_str("--"));
    args.push(exercise.path.clone());
    assert(crate::text::texts(args@) =~= reset_args_of(exercise.path@));
    args
}

} // verus!
