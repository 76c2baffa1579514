use noirlings::exercise::{BbVerifyOptions, Exercise, ExerciseOutput, Mode, TomlFile};
use noirlings::noir::{bb_prove, bb_verify, nargo_compile, nargo_execute, nargo_test, ToolRun};
use noirlings::noir::{staged, TestReport};
use noirlings::run::{
    advance, next_step, outcome, phase, plan, reset, run, start, FailureKind, Phase,
    PipelineOutcome, RunState, Step, StepError, RESET_PROGRAM,
};
use noirlings::utils::{conclude, Level, Notice};

fn exercise(mode: Mode) -> Exercise {
    Exercise {
        name: "intro1".to_string(),
        path: "exercises/intro/intro1.nr".to_string(),
        mode,
        hint: String::new(),
    }
}

fn inputs() -> TomlFile {
    TomlFile::Inlined("a = '1'".to_string())
}

fn prove_and_verify(save_files: bool) -> Mode {
    Mode::ProveAndVerify(BbVerifyOptions { toml_file: inputs(), save_files })
}

fn exited(success: bool, stderr: &str) -> Result<ToolRun, String> {
    Ok(ToolRun {
        success,
        output: ExerciseOutput { stdout: String::new(), stderr: stderr.to_string() },
    })
}

fn ok() -> Result<String, StepError> {
    Ok(String::new())
}

fn failed(kind: FailureKind, text: &str) -> Result<String, StepError> {
    Err(StepError { kind, text: text.to_string() })
}

/// Drives a run as a caller does: asks for the next step, answers it with
/// `answer`, and notes which steps were asked for.
fn drive(
    exercise: &Exercise,
    mut answer: impl FnMut(Step) -> Result<String, StepError>,
) -> (RunState, Vec<Step>) {
    let mut state = start();
    let mut asked = Vec::new();
    while let Some(step) = next_step(&exercise.mode, &state) {
        asked.push(step);
        state = advance(&exercise.mode, state, answer(step));
    }
    (state, asked)
}

#[test]
fn prover_that_cannot_be_started_fails_the_step() {
    let exercise = exercise(Mode::ProveOnly(inputs()));
    let (state, asked) = drive(&exercise, |step| match step {
        Step::Prove => bb_prove(Err("No such file or directory (os error 2)".to_string())),
        _ => ok(),
    });
    assert_eq!(asked, vec![Step::Stage, Step::Execute, Step::Prove]);
    assert_eq!(
        outcome(&exercise.mode, &state),
        Some(PipelineOutcome::Failure {
            cause: "No such file or directory (os error 2)".to_string(),
            kind: FailureKind::Prover,
            at: Step::Prove,
            upstream: false,
        })
    );
}

#[test]
fn each_mode_has_its_steps() {
    assert_eq!(plan(&Mode::Build), vec![Step::Stage, Step::Compile]);
    assert_eq!(plan(&Mode::Execute(inputs())), vec![Step::Stage, Step::Execute]);
    assert_eq!(plan(&Mode::ProveOnly(inputs())), vec![Step::Stage, Step::Execute, Step::Prove]);
    assert_eq!(
        plan(&prove_and_verify(true)),
        vec![Step::Stage, Step::Execute, Step::Prove, Step::Verify]
    );
    assert_eq!(plan(&prove_and_verify(false)), plan(&prove_and_verify(true)));
    assert_eq!(plan(&Mode::Test), vec![Step::Stage, Step::Test]);
}

#[test]
fn build_that_compiles_succeeds_with_empty_output() {
    let exercise = exercise(Mode::Build);
    let (state, asked) = drive(&exercise, |step| match step {
        Step::Compile => nargo_compile(Ok(())),
        _ => ok(),
    });
    assert_eq!(asked, vec![Step::Stage, Step::Compile]);
    assert_eq!(state, RunState::Running { done: 2, output: String::new() });
    assert_eq!(phase(&exercise.mode, &state), Phase::Done);
    let ended = outcome(&exercise.mode, &state);
    assert_eq!(ended, Some(PipelineOutcome::Success { output: String::new() }));
    let report = conclude(&exercise, &ended.unwrap(), "");
    assert_eq!(report.result, Ok(String::new()));
    assert_eq!(
        report.notices,
        vec![Notice {
            level: Level::Success,
            text: "Successfully built exercises/intro/intro1.nr!".to_string(),
        }]
    );
}

#[test]
fn build_that_does_not_compile_fails_at_compile() {
    let exercise = exercise(Mode::Build);
    let (state, asked) = drive(&exercise, |step| match step {
        Step::Compile => nargo_compile(Err("expected type Field".to_string())),
        _ => ok(),
    });
    assert_eq!(asked, vec![Step::Stage, Step::Compile]);
    assert_eq!(
        outcome(&exercise.mode, &state),
        Some(PipelineOutcome::Failure {
            cause: "Failed to compile the program: expected type Field".to_string(),
            kind: FailureKind::Toolkit,
            at: Step::Compile,
            upstream: false,
        })
    );
    assert_eq!(phase(&exercise.mode, &state), Phase::Failed);
}

#[test]
fn prove_only_whose_prover_fails_surfaces_stderr_and_stops() {
    let exercise = exercise(Mode::ProveOnly(inputs()));
    let (state, asked) = drive(&exercise, |step| match step {
        Step::Execute => nargo_execute(Ok(vec![])),
        Step::Prove => bb_prove(exited(false, "bb: command not found")),
        _ => ok(),
    });
    assert_eq!(asked, vec![Step::Stage, Step::Execute, Step::Prove]);
    assert!(!asked.contains(&Step::Verify));
    assert_eq!(next_step(&exercise.mode, &state), None);
    let ended = outcome(&exercise.mode, &state).unwrap();
    assert_eq!(
        ended,
        PipelineOutcome::Failure {
            cause: "Failed to prove the program: bb: command not found".to_string(),
            kind: FailureKind::Prover,
            at: Step::Prove,
            upstream: false,
        }
    );
    let report = conclude(&exercise, &ended, "a = '1'");
    assert_eq!(report.result, Err(()));
    assert_eq!(
        report.notices,
        vec![
            Notice {
                level: Level::Error,
                text: "Failed to prove the program: bb: command not found".to_string(),
            },
            Notice {
                level: Level::Warning,
                text: "Compilation worked but failed to create proof with barretenberg for exercises/intro/intro1.nr! Please try again.".to_string(),
            },
            Notice {
                level: Level::Error,
                text: "Are you sure you installed barretenberg properly ?".to_string(),
            },
        ]
    );
}

#[test]
fn prove_and_verify_succeeds_with_and_without_kept_files() {
    for save_files in [true, false] {
        let exercise = exercise(prove_and_verify(save_files));
        let (state, asked) = drive(&exercise, |step| match step {
            Step::Execute => nargo_execute(Ok(vec![])),
            Step::Prove => bb_prove(exited(true, "")),
            Step::Verify => bb_verify(exited(true, ""), exited(true, "")),
            _ => ok(),
        });
        assert_eq!(asked, vec![Step::Stage, Step::Execute, Step::Prove, Step::Verify]);
        let ended = outcome(&exercise.mode, &state).unwrap();
        assert_eq!(ended, PipelineOutcome::Success { output: String::new() });
        let report = conclude(&exercise, &ended, "a = '1'");
        assert_eq!(report.result, Ok(String::new()));
        assert_eq!(
            report.notices,
            vec![Notice {
                level: Level::Success,
                text: "Successfully ran exercises/intro/intro1.nr and verified proof!\n With inputs: a = '1'".to_string(),
            }]
        );
    }
    let kept = exercise(prove_and_verify(true)).prove_verify_proof("runner_crate", true, "./temp_1_ThreadId1");
    let dropped = exercise(prove_and_verify(false)).prove_verify_proof("runner_crate", false, "./temp_1_ThreadId1");
    assert_eq!(kept.prove, dropped.prove);
    assert_ne!(kept.write_vk, dropped.write_vk);
    assert_ne!(kept.verify, dropped.verify);
    assert_eq!(kept.discard, None);
    assert_eq!(dropped.discard, Some("./temp_1_ThreadId1".to_string()));
}

#[test]
fn failed_execute_skips_prove_and_verify() {
    let exercise = exercise(prove_and_verify(true));
    let (state, asked) = drive(&exercise, |step| match step {
        Step::Execute => nargo_execute(Err("cannot satisfy constraint".to_string())),
        _ => ok(),
    });
    assert_eq!(asked, vec![Step::Stage, Step::Execute]);
    assert_eq!(
        outcome(&exercise.mode, &state),
        Some(PipelineOutcome::Failure {
            cause: "cannot satisfy constraint".to_string(),
            kind: FailureKind::Toolkit,
            at: Step::Execute,
            upstream: true,
        })
    );
}

#[test]
fn failed_prove_skips_verify() {
    let exercise = exercise(prove_and_verify(false));
    let (state, asked) = drive(&exercise, |step| match step {
        Step::Prove => bb_prove(exited(false, "no witness")),
        _ => ok(),
    });
    assert_eq!(asked, vec![Step::Stage, Step::Execute, Step::Prove]);
    assert_eq!(
        state,
        RunState::Failed {
            at: Step::Prove,
            error: StepError {
                kind: FailureKind::Prover,
                text: "Failed to prove the program: no witness".to_string(),
            },
        }
    );
    assert_eq!(
        outcome(&exercise.mode, &state),
        Some(PipelineOutcome::Failure {
            cause: "Failed to prove the program: no witness".to_string(),
            kind: FailureKind::Prover,
            at: Step::Prove,
            upstream: true,
        })
    );
}

#[test]
fn failed_verify_fails_the_run() {
    let exercise = exercise(prove_and_verify(true));
    let (state, _) = drive(&exercise, |step| match step {
        Step::Verify => bb_verify(exited(true, ""), exited(false, "proof is invalid")),
        _ => ok(),
    });
    assert_eq!(
        outcome(&exercise.mode, &state),
        Some(PipelineOutcome::Failure {
            cause: "Failed to verify the program: proof is invalid".to_string(),
            kind: FailureKind::Prover,
            at: Step::Verify,
            upstream: false,
        })
    );
}

#[test]
fn failed_staging_fails_every_mode_before_the_toolkit() {
    for mode in [Mode::Build, Mode::Execute(inputs()), Mode::ProveOnly(inputs()), Mode::Test] {
        let exercise = exercise(mode);
        let (state, asked) =
            drive(&exercise, |_| staged(Err("No such file or directory".to_string())));
        assert_eq!(asked, vec![Step::Stage]);
        assert_eq!(
            outcome(&exercise.mode, &state),
            Some(PipelineOutcome::Failure {
                cause: "No such file or directory".to_string(),
                kind: FailureKind::Staging,
                at: Step::Stage,
                upstream: true,
            })
        );
    }
}

#[test]
fn test_mode_reports_failing_tests_as_one_failure() {
    let exercise = exercise(Mode::Test);
    let (state, asked) = drive(&exercise, |step| match step {
        Step::Test => nargo_test(Ok(vec![
            TestReport { name: "test_a".to_string(), failed: false },
            TestReport { name: "test_b".to_string(), failed: true },
            TestReport { name: "test_c".to_string(), failed: true },
        ])),
        _ => ok(),
    });
    assert_eq!(asked, vec![Step::Stage, Step::Test]);
    let ended = outcome(&exercise.mode, &state).unwrap();
    assert_eq!(
        ended,
        PipelineOutcome::Failure {
            cause: "Some tests failed".to_string(),
            kind: FailureKind::TestFailure,
            at: Step::Test,
            upstream: false,
        }
    );
    assert_eq!(
        conclude(&exercise, &ended, "").notices,
        vec![
            Notice {
                level: Level::Warning,
                text: "Testing of exercises/intro/intro1.nr failed! Please try again. See the output above ^".to_string(),
            },
            Notice { level: Level::Output, text: "Some tests failed".to_string() },
        ]
    );
}

#[test]
fn run_over_recorded_results_stops_at_the_first_failure() {
    let exercise = exercise(Mode::ProveOnly(inputs()));
    let results = vec![
        ok(),
        failed(FailureKind::Toolkit, "first"),
        failed(FailureKind::Prover, "second"),
        ok(),
    ];
    assert_eq!(
        run(&exercise, &results),
        RunState::Failed {
            at: Step::Execute,
            error: StepError { kind: FailureKind::Toolkit, text: "first".to_string() },
        }
    );
    let results =
        vec![ok(), Ok("witness solved".to_string()), ok(), failed(FailureKind::Prover, "late")];
    assert_eq!(
        run(&exercise, &results),
        RunState::Running { done: 3, output: "witness solved".to_string() }
    );
}

#[test]
fn run_that_is_not_over_has_no_outcome() {
    let exercise = exercise(Mode::ProveOnly(inputs()));
    let state = run(&exercise, &vec![ok(), ok()]);
    assert_eq!(state, RunState::Running { done: 2, output: String::new() });
    assert_eq!(outcome(&exercise.mode, &state), None);
    assert_eq!(next_step(&exercise.mode, &state), Some(Step::Prove));
    assert_eq!(phase(&exercise.mode, &state), Phase::Executed);
    assert_eq!(phase(&exercise.mode, &start()), Phase::Created);
    assert_eq!(phase(&exercise.mode, &run(&exercise, &vec![ok()])), Phase::Staged);
    assert_eq!(
        phase(&prove_and_verify(true), &run(&exercise, &vec![ok(), ok(), ok()])),
        Phase::Proved
    );
}

#[test]
fn output_of_a_run_is_what_the_toolkit_step_captured() {
    let exercise = exercise(Mode::Execute(inputs()));
    let state = run(&exercise, &vec![Ok("staged".to_string()), Ok("return value: 3".to_string())]);
    let ended = outcome(&exercise.mode, &state).unwrap();
    assert_eq!(ended, PipelineOutcome::Success { output: "return value: 3".to_string() });
    assert_eq!(
        conclude(&exercise, &ended, "a = '1'").notices,
        vec![
            Notice { level: Level::Captured, text: "return value: 3".to_string() },
            Notice {
                level: Level::Success,
                text: "Successfully ran exercises/intro/intro1.nr!\n With inputs: a = '1'".to_string(),
            },
        ]
    );
}

#[test]
fn a_finished_or_failed_run_takes_nothing_in() {
    let mode = Mode::Build;
    let done = RunState::Running { done: 2, output: "out".to_string() };
    assert_eq!(advance(&mode, done.clone(), failed(FailureKind::Toolkit, "late")), done);
    let stopped = RunState::Failed {
        at: Step::Compile,
        error: StepError { kind: FailureKind::Toolkit, text: "c".to_string() },
    };
    assert_eq!(advance(&mode, stopped.clone(), ok()), stopped);
    assert_eq!(next_step(&mode, &done), None);
    assert_eq!(next_step(&mode, &stopped), None);
}

#[test]
fn reset_stashes_the_exercise_file() {
    assert_eq!(RESET_PROGRAM, "git");
    assert_eq!(
        reset(&exercise(Mode::Build)),
        vec!["stash".to_string(), "--".to_string(), "exercises/intro/intro1.nr".to_string()]
    );
}
