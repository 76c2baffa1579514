//! What the runner tells the user about a run.
//!
//! The functions here write no output. They hand back the lines to show,
//! each with the way it is to be shown, and leave the showing to the caller.

use crate::exercise::{Exercise, Mode, ModeView};
use crate::run::{PipelineOutcome, PipelineOutcomeView, Step};
use crate::text::{join, join3};
use vstd::prelude::*;
use vstd::string::StringExecFns;

verus! {

/// How a line is shown.
#[derive(Clone, Copy, Debug, PartialEq, Eq, Structural)]
pub enum Level {
    /// A step is about to start.
    Progress,
    /// Something failed: shown as a warning.
    Warning,
    /// The text of a failure, shown as it is on the error stream.
    Error,
    /// Text shown as it is on the output stream.
    Output,
    /// The captured output of a run, shown behind its label.
    Captured,
    /// The run succeeded.
    Success,
}

/// One line to show.
#[derive(Clone, Debug, PartialEq, Eq)]
pub struct Notice {
    pub level: Level,
    pub text: String,
}

/// What a `Notice` stands for.
pub struct NoticeView {
    pub level: Level,
    pub text: Seq<char>,
}

impl View for Notice {
    type V = NoticeView;

    open spec fn view(&self) -> NoticeView {
        NoticeView { level: self.level, text: self.text@ }
    }
}

/// What a list of notices stands for.
pub open spec fn notice_views(notices: Seq<Notice>) -> Seq<NoticeView> {
    notices.map_values(|n: Notice| n@)
}

/// What one of the runner's operations hands back: the captured output or
/// the mere fact of a failure, and the lines to show.
#[derive(Debug, PartialEq, Eq)]
pub struct Report {
    pub result: Result<String, ()>,
    pub notices: Vec<Notice>,
}

/// What a `Report` stands for.
pub struct ReportView {
    pub result: Result<Seq<char>, ()>,
    pub notices: Seq<NoticeView>,
}

impl View for Report {
    type V = ReportView;

    open spec fn view(&self) -> ReportView {
        ReportView {
            result: match self.result {
                Ok(output) => Ok(output@),
                Err(_) => Err(()),
            },
            notices: notice_views(self.notices@),
        }
    }
}

/// The question that follows a failure of the prover.
pub const INSTALLATION_HINT: &'static str = "Are you sure you installed barretenberg properly ?";

/// The warning for a failure of staging the exercise shown as `exercise`.
pub open spec fn staging_warning_of(exercise: Seq<char>) -> Seq<char> {
    "Error occurred while preparing the exercise "@ + exercise
}

/// The warning for a failure at `at` of building the exercise shown as
/// `exercise`.
pub open spec fn build_warning_of(exercise: Seq<char>, at: Step) -> Seq<char> {
    if at == Step::Stage {
        staging_warning_of(exercise)
    } else {
        "Compiling of "@ + exercise + " failed! Please try again."@
    }
}

/// The warning for a failure at `at` of executing the exercise shown as
/// `exercise`.
pub open spec fn execute_warning_of(exercise: Seq<char>, at: Step) -> Seq<char> {
    if at == Step::Stage {
        staging_warning_of(exercise)
    } else {
        "Failed to run "@ + exercise + "! Please try again."@
    }
}

/// Whether a failure at `at` is one of the prover.
pub open spec fn is_prover_step(at: Step) -> bool {
    at == Step::Prove || at == Step::Verify
}

/// The warning for a failure at `at` of executing and proving the exercise
/// shown as `exercise`.
pub open spec fn prove_warning_of(exercise: Seq<char>, at: Step) -> Seq<char> {
    if at == Step::Stage {
        staging_warning_of(exercise)
    } else if is_prover_step(at) {
        "Compilation worked but failed to create proof with barretenberg for "@ + exercise
            + "! Please try again."@
    } else {
        "Failed to execute "@ + exercise + "! Please try again."@
    }
}

/// The warning for a failure at `at` of executing, proving and verifying
/// the exercise shown as `exercise`.
pub open spec fn prove_verify_warning_of(exercise: Seq<char>, at: Step) -> Seq<char> {
    if at == Step::Stage {
        staging_warning_of(exercise)
    } else if is_prover_step(at) {
        "Compilation worked but failed to prove and verify with barretenberg backend for "@
            + exercise + "! Please try again."@
    } else {
        "Failed to execute "@ + exercise + "! Please try again."@
    }
}

/// The warning for a failure at `at` of testing the exercise shown as
/// `exercise`.
pub open spec fn test_warning_of(exercise: Seq<char>, at: Step) -> Seq<char> {
    if at == Step::Stage {
        staging_warning_of(exercise)
    } else {
        "Testing of "@ + exercise + " failed! Please try again. See the output above ^"@
    }
}

/// The lines for a failure with `cause`: the cause, then `warning`, then
/// the question about the prover's installation where the prover failed.
pub open spec fn failure_notices_of(cause: Seq<char>, warning: Seq<char>, prover: bool) -> Seq<
    NoticeView,
> {
    let first = seq![
        NoticeView { level: Level::Error, text: cause },
        NoticeView { level: Level::Warning, text: warning },
    ];
    if prover {
        first.push(NoticeView { level: Level::Error, text: INSTALLATION_HINT@ })
    } else {
        first
    }
}

/// The report of an operation that ended with `outcome`: the output of a
/// success with nothing to show, or a bare failure with the lines that
/// `failure` gives for its step and cause.
pub open spec fn report_of(
    outcome: PipelineOutcomeView,
    failure: spec_fn(Step, Seq<char>) -> Seq<NoticeView>,
) -> ReportView {
    match outcome {
        PipelineOutcomeView::Success { output } => ReportView {
            result: Ok(output),
            notices: Seq::empty(),
        },
        PipelineOutcomeView::Failure { cause, at, .. } => ReportView {
            result: Err(()),
            notices: failure(at, cause),
        },
    }
}

/// The report of building the exercise shown as `exercise`.
pub open spec fn build_report_of(exercise: Seq<char>, outcome: PipelineOutcomeView) -> ReportView {
    report_of(
        outcome,
        |at: Step, cause: Seq<char>| failure_notices_of(cause, build_warning_of(exercise, at), false),
    )
}

/// The report of executing the exercise shown as `exercise`.
pub open spec fn execute_report_of(exercise: Seq<char>, outcome: PipelineOutcomeView) -> ReportView {
    report_of(
        outcome,
        |at: Step, cause: Seq<char>|
            failure_notices_of(cause, execute_warning_of(exercise, at), false),
    )
}

/// The report of executing and proving the exercise shown as `exercise`.
pub open spec fn prove_report_of(exercise: Seq<char>, outcome: PipelineOutcomeView) -> ReportView {
    report_of(
        outcome,
        |at: Step, cause: Seq<char>|
            failure_notices_of(cause, prove_warning_of(exercise, at), is_prover_step(at)),
    )
}

/// The report of executing, proving and verifying the exercise shown as
/// `exercise`.
pub open spec fn prove_verify_report_of(
    exercise: Seq<char>,
    outcome: PipelineOutcomeView,
) -> ReportView {
    report_of(
        outcome,
        |at: Step, cause: Seq<char>|
            failure_notices_of(cause, prove_verify_warning_of(exercise, at), is_prover_step(at)),
    )
}

/// The report of testing the exercise shown as `exercise`: on a failure
/// the warning comes first, and the cause follows on the output stream.
pub open spec fn test_report_of(exercise: Seq<char>, outcome: PipelineOutcomeView) -> ReportView {
    report_of(
        outcome,
        |at: Step, cause: Seq<char>|
            seq![
                NoticeView { level: Level::Warning, text: test_warning_of(exercise, at) },
                NoticeView { level: Level::Output, text: cause },
            ],
    )
}

/// The line shown before the exercise shown as `exercise` is run in `mode`.
pub open spec fn progress_of(exercise: Seq<char>, mode: ModeView) -> Seq<char> {
    match mode {
        ModeView::Build => "Building "@ + exercise + " exercise..."@,
        ModeView::Test => "Testing "@ + exercise + " exercise..."@,
        _ => "Running "@ + exercise + " exercise..."@,
    }
}

/// The line shown after the exercise shown as `exercise` succeeded in
/// `mode`, where `inputs` is the text of the input values.
pub open spec fn success_of(exercise: Seq<char>, mode: ModeView, inputs: Seq<char>) -> Seq<char> {
    match mode {
        ModeView::Build => "Successfully built "@ + exercise + "!"@,
        ModeView::Execute(_) => "Successfully ran "@ + exercise + "!\n With inputs: "@ + inputs,
        ModeView::ProveOnly(_) => "Successfully ran "@ + exercise
            + " and created proof!\n With inputs: "@ + inputs,
        ModeView::ProveAndVerify(_) => "Successfully ran "@ + exercise
            + " and verified proof!\n With inputs: "@ + inputs,
        ModeView::Test => "Successfully tested "@ + exercise + "!"@,
    }
}

/// The lines for a failure with `cause`.
fn failure_notices(cause: &String, warning: String, prover: bool) -> (notices: Vec<Notice>)
    ensures
        notice_views(notices@) == failure_notices_of(cause@, warning@, prover),
{
    let mut notices: Vec<Notice> = Vec::new();
    notices.push(Notice { level: Level::Error, text: cause.clone() });
    notices.push(Notice { level: Level::Warning, text: warning });
    if prover {
        notices.push(Notice { level: Level::Error, text: String::from_str(INSTALLATION_HINT) });
    }
    assert(notice_views(notices@) =~= failure_notices_of(cause@, warning@, prover));
    notices
}

/// The report of a success with `output`.
fn success_report(output: &String) -> (report: Report)
    ensures
        report@ == (ReportView { result: Ok(output@), notices: Seq::empty() }),
{
    let notices: Vec<Notice> = Vec::new();
    assert(notice_views(notices@) =~= Seq::<NoticeView>::empty());
    Report { result: Ok(output.clone()), notices }
}

/// The warning for a failure of staging `exercise`.
fn staging_warning(exercise: &Exercise) -> (warning: String)
    ensures
        warning@ == staging_warning_of(exercise.path@),
{
    join("Error occurred while preparing the exercise ", exercise.path.as_str())
}

/// Whether `at` is a step of the prover.
fn prover_step(at: Step) -> (prover: bool)
    ensures
        prover == is_prover_step(at),
{
    match at {
        Step::Prove | Step::Verify => true,
        _ => false,
    }
}

/// Reports how building `exercise` ended.
pub fn build_exercise(exercise: &Exercise, outcome: &PipelineOutcome) -> (report: Report)
    ensures
        report@ == build_report_of(exercise.path@, outcome@),
{
    match outcome {
        PipelineOutcome::Success { output } => success_report(output),
        PipelineOutcome::Failure { cause, at, .. } => {
            let warning = match at {
                Step::Stage => staging_warning(exercise),
                _ => join3("Compiling of ", exercise.path.as_str(), " failed! Please try again."),
            };
            Report { result: Err(()), notices: failure_notices(cause, warning, false) }
        },
    }
}

/// Reports how executing `exercise` ended.
pub fn execute_exercise(exercise: &Exercise, outcome: &PipelineOutcome) -> (report: Report)
    ensures
        report@ == execute_report_of(exercise.path@, outcome@),
{
    match outcome {
        PipelineOutcome::Success { output } => success_report(output),
        PipelineOutcome::Failure { cause, at, .. } => {
            let warning = match at {
                Step::Stage => staging_warning(exercise),
                _ => join3("Failed to run ", exercise.path.as_str(), "! Please try again."),
            };
            Report { result: Err(()), notices: failure_notices(cause, warning, false) }
        },
    }
}

/// Reports how executing and proving `exercise` ended.
pub fn bb_prove_exercise(exercise: &Exercise, outcome: &PipelineOutcome) -> (report: Report)
    ensures
        report@ == prove_report_of(exercise.path@, outcome@),
{
    match outcome {
        PipelineOutcome::Success { output } => success_report(output),
        PipelineOutcome::Failure { cause, at, .. } => {
            let warning = match at {
                Step::Stage => staging_warning(exercise),
                Step::Prove | Step::Verify => join3(
                    "Compilation worked but failed to create proof with barretenberg for ",
                    exercise.path.as_str(),
                    "! Please try again.",
                ),
                _ => join3("Failed to execute ", exercise.path.as_str(), "! Please try again."),
            };
            Report { result: Err(()), notices: failure_notices(cause, warning, prover_step(*at)) }
        },
    }
}

/// Reports how executing, proving and verifying `exercise` ended.
pub fn bb_prove_verify_exercise(exercise: &Exercise, outcome: &PipelineOutcome) -> (report: Report)
    ensures
        report@ == prove_verify_report_of(exercise.path@, outcome@),
{
    match outcome {
        PipelineOutcome::Success { output } => success_report(output),
        PipelineOutcome::Failure { cause, at, .. } => {
            let warning = match at {
                Step::Stage => staging_warning(exercise),
                Step::Prove | Step::Verify => join3(
                    "Compilation worked but failed to prove and verify with barretenberg backend for ",
                    exercise.path.as_str(),
                    "! Please try again.",
                ),
                _ => join3("Failed to execute ", exercise.path.as_str(), "! Please try again."),
            };
            Report { result: Err(()), notices: failure_notices(cause, warning, prover_step(*at)) }
        },
    }
}

/// Reports how testing `exercise` ended.
pub fn test_exercise(exercise: &Exercise, outcome: &PipelineOutcome) -> (report: Report)
    ensures
        report@ == test_report_of(exercise.path@, outcome@),
{
    match outcome {
        PipelineOutcome::Success { output } => success_report(output),
        PipelineOutcome::Failure { cause, at, .. } => {
            let warning = match at {
                Step::Stage => staging_warning(exercise),
                _ => join3(
                    "Testing of ",
                    exercise.path.as_str(),
                    " failed! Please try again. See the output above ^",
                ),
            };
            let mut notices: Vec<Notice> = Vec::new();
            notices.push(Notice { level: Level::Warning, text: warning });
            notices.push(Notice { level: Level::Output, text: cause.clone() });
            assert(notice_views(notices@) =~= seq![
                NoticeView { level: Level::Warning, text: test_warning_of(exercise.path@, *at) },
                NoticeView { level: Level::Output, text: cause@ },
            ]);
            Report { result: Err(()), notices }
        },
    }
}

/// The line to show before `exercise` is run.
pub fn progress_message(exercise: &Exercise) -> (line: String)
    ensures
        line@ == progress_of(exercise.path@, exercise.mode@),
{
    let opening = match exercise.mode {
        Mode::Build => "Building ",
        Mode::Test => "Testing ",
        _ => "Running ",
    };
    join3(opening, exercise.path.as_str(), " exercise...")
}

/// The captured output as it is shown after a run: nothing where it is
/// empty.
pub fn print_exercise_output(exercise_output: &str) -> (shown: Option<String>)
    ensures
        match shown {
            Some(text) => exercise_output@.len() > 0 && text@ == exercise_output@,
            None => exercise_output@.len() == 0,
        },
{
    if exercise_output.is_empty() {
        None
    } else {
        Some(String::from_str(exercise_output))
    }
}

/// The line to show after `exercise` succeeded, where `inputs` is the text
/// that its input values resolved to. Modes without input values leave
/// `inputs` aside.
pub fn print_exercise_success(exercise: &Exercise, inputs: &str) -> (line: String)
    ensures
        line@ == success_of(exercise.path@, exercise.mode@, inputs@),
{
    let shown = exercise.path.as_str();
    match exercise.mode {
        Mode::Build => join3("Successfully built ", shown, "!"),
        Mode::Execute(_) => join3("Successfully ran ", shown, "!\n With inputs: ").concat(inputs),
        Mode::ProveOnly(_) => join3(
            "Successfully ran ",
            shown,
            " and created proof!\n With inputs: ",
        ).concat(inputs),
        Mode::ProveAndVerify(_) => join3(
            "Successfully ran ",
            shown,
            " and verified proof!\n With inputs: ",
        ).concat(inputs),
        Mode::Test => join3("Successfully tested ", shown, "!"),
    }
}

/// The report that closes a run of the exercise shown as `exercise` in
/// `mode`. A failure is reported as the mode reports it. A success is
/// followed by the captured output, unless that is empty, and by the line
/// that tells of the success.
pub open spec fn conclusion_of(
    exercise: Seq<char>,
    mode: ModeView,
    outcome: PipelineOutcomeView,
    inputs: Seq<char>,
) -> ReportView {
    let report = match mode {
        ModeView::Build => build_report_of(exercise, outcome),
        ModeView::Execute(_) => execute_report_of(exercise, outcome),
        ModeView::ProveOnly(_) => prove_report_of(exercise, outcome),
        ModeView::ProveAndVerify(_) => prove_verify_report_of(exercise, outcome),
        ModeView::Test => test_report_of(exercise, outcome),
    };
    match outcome {
        PipelineOutcomeView::Failure { .. } => report,
        PipelineOutcomeView::Success { output } => {
            let success = NoticeView {
                level: Level::Success,
                text: success_of(exercise, mode, inputs),
            };
            ReportView {
                result: report.result,
                notices: if output.len() > 0 {
                    seq![NoticeView { level: Level::Captured, text: output }, success]
                } else {
                    seq![success]
                },
            }
        },
    }
}

/// Closes a run of `exercise` that ended with `outcome`, where `inputs` is
/// the text that its input values resolved to.
pub fn conclude(exercise: &Exercise, outcome: &PipelineOutcome, inputs: &str) -> (report: Report)
    ensures
        report@ == conclusion_of(exercise.path@, exercise.mode@, outcome@, inputs@),
{
    let report = match exercise.mode {
        Mode::Build => build_exercise(exercise, outcome),
        Mode::Execute(_) => execute_exercise(exercise, outcome),
        Mode::ProveOnly(_) => bb_prove_exercise(exercise, outcome),
        Mode::ProveAndVerify(_) => bb_prove_verify_exercise(exercise, outcome),
        Mode::Test => test_exercise(exercise, outcome),
    };
    match outcome {
        PipelineOutcome::Failure { .. } => report,
        PipelineOutcome::Success { output } => {
            let mut notices: Vec<Notice> = Vec::new();
            match print_exercise_output(output.as_str()) {
                Some(text) => {
                    notices.push(Notice { level: Level::Captured, text });
                },
                None => {},
            }
            notices.push(
                Notice { level: Level::Success, text: print_exercise_success(exercise, inputs) },
            );
            proof {
                let success = NoticeView {
                    level: Level::Success,
                    text: success_of(exercise.path@, exercise.mode@, inputs@),
                };
                assert(notice_views(notices@) =~= if output@.len() > 0 {
                    seq![NoticeView { level: Level::Captured, text: output@ }, success]
                } else {
                    seq![success]
                });
            }
            Report { result: report.result, notices }
        },
    }
}

} // verus!
