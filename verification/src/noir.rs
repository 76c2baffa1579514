//! What the runner asks of the compiler toolkit and of the prover, and what
//! it makes of their answers.
//!
//! Nothing here runs a tool or touches a file. The functions of the first
//! half say what is to be done: which files go where in the working crate,
//! and which arguments the prover is called with. Those of the second half
//! take what came back and say whether the step succeeded, with the text of
//! the failure where it did not.

use crate::exercise::{ExerciseOutput, TomlFile, TomlFileView};
use crate::run::{result_text, FailureKind, StepError, StepErrorView};
use crate::text::{join, join3, texts};
use vstd::prelude::*;
use vstd::string::StringExecFns;

verus! {

/// The name of the working crate's package, and of its directory where the
/// caller has no other root.
pub const RUNNER_CRATE: &'static str = "runner_crate";

/// The name, without extension, of the file that holds the input values.
pub const PROVER_INPUT_FILE: &'static str = "Prover";

/// The directory of the working crate's sources.
pub open spec fn src_dir_of(root: Seq<char>) -> Seq<char> {
    root + "/src"@
}

/// The place of the exercise's source inside the working crate.
pub open spec fn main_file_of(root: Seq<char>) -> Seq<char> {
    root + "/src/main.nr"@
}

/// The place of the input values inside the working crate.
pub open spec fn inputs_file_of(root: Seq<char>) -> Seq<char> {
    root + "/"@ + PROVER_INPUT_FILE@ + ".toml"@
}

/// The compiled program of the working crate.
pub open spec fn artifact_of(root: Seq<char>) -> Seq<char> {
    root + "/target/"@ + RUNNER_CRATE@ + ".json"@
}

/// The witness that executing the exercise `name` saves.
pub open spec fn witness_of(root: Seq<char>, name: Seq<char>) -> Seq<char> {
    root + "/target/"@ + name + ".gz"@
}

/// The proof of the exercise `name`.
pub open spec fn proof_of(root: Seq<char>, name: Seq<char>) -> Seq<char> {
    root + "/target/proof-"@ + name
}

/// The verification key of the exercise `name`, where it is kept.
pub open spec fn key_of(root: Seq<char>, name: Seq<char>) -> Seq<char> {
    root + "/target/vk-"@ + name
}

/// How the input values reach the working crate.
#[derive(Clone, Debug, PartialEq, Eq)]
pub enum InputStaging {
    /// Write `text` to the new file `path`.
    Write { path: String, text: String },
    /// Copy the file `from` to `path`.
    Copy { from: String, path: String },
}

/// What an `InputStaging` stands for.
pub enum InputStagingView {
    Write { path: Seq<char>, text: Seq<char> },
    Copy { from: Seq<char>, path: Seq<char> },
}

impl View for InputStaging {
    type V = InputStagingView;

    open spec fn view(&self) -> InputStagingView {
        match self {
            InputStaging::Write { path, text } => InputStagingView::Write {
                path: path@,
                text: text@,
            },
            InputStaging::Copy { from, path } => InputStagingView::Copy { from: from@, path: path@ },
        }
    }
}

/// The file operations that make the working crate ready for one exercise.
/// Each of them overwrites what an earlier exercise left.
#[derive(Clone, Debug, PartialEq, Eq)]
pub struct StagingPlan {
    /// The root of the working crate: the handle for the toolkit.
    pub crate_path: String,
    /// The directory to create if it is absent.
    pub src_dir: String,
    /// The exercise's source file.
    pub source: String,
    /// Where the source file is copied to.
    pub target: String,
    /// What to do for the input values, if the run has any.
    pub inputs: Option<InputStaging>,
}

/// What a `StagingPlan` stands for.
pub struct StagingPlanView {
    pub crate_path: Seq<char>,
    pub src_dir: Seq<char>,
    pub source: Seq<char>,
    pub target: Seq<char>,
    pub inputs: Option<InputStagingView>,
}

impl View for StagingPlan {
    type V = StagingPlanView;

    open spec fn view(&self) -> StagingPlanView {
        StagingPlanView {
            crate_path: self.crate_path@,
            src_dir: self.src_dir@,
            source: self.source@,
            target: self.target@,
            inputs: match self.inputs {
                Some(inputs) => Some(inputs@),
                None => None,
            },
        }
    }
}

/// How the input values `prover_toml` reach the working crate at `root`:
/// inline text is written to the input file, a referenced file is copied
/// there.
pub open spec fn input_staging_of(root: Seq<char>, prover_toml: TomlFileView) -> InputStagingView {
    match prover_toml {
        TomlFileView::Inlined(text) => InputStagingView::Write { path: inputs_file_of(root), text },
        TomlFileView::Referenced(from) => InputStagingView::Copy {
            from,
            path: inputs_file_of(root),
        },
    }
}

/// The staging of the source file `file_path`, with the input values
/// `prover_toml` if there are any, into the working crate at `root`.
pub open spec fn staging_of(
    root: Seq<char>,
    file_path: Seq<char>,
    prover_toml: Option<TomlFileView>,
) -> StagingPlanView {
    StagingPlanView {
        crate_path: root,
        src_dir: src_dir_of(root),
        source: file_path,
        target: main_file_of(root),
        inputs: match prover_toml {
            Some(inputs) => Some(input_staging_of(root, inputs)),
            None => None,
        },
    }
}

/// Plans the staging of one exercise into the working crate at `root`.
pub fn prepare_crate_for_exercise(root: &str, file_path: &str, prover_toml: Option<TomlFile>) -> (plan:
    StagingPlan)
    ensures
        plan@ == staging_of(
            root@,
            file_path@,
            match prover_toml {
                Some(inputs) => Some(inputs@),
                None => None,
            },
        ),
{
    let inputs = match prover_toml {
        None => None,
        Some(TomlFile::Inlined(text)) => Some(
            InputStaging::Write { path: inputs_file(root), text },
        ),
        Some(TomlFile::Referenced(from)) => Some(
            InputStaging::Copy { from, path: inputs_file(root) },
        ),
    };
    StagingPlan {
        crate_path: String::from_str(root),
        src_dir: join(root, "/src"),
        source: String::from_str(file_path),
        target: join(root, "/src/main.nr"),
        inputs,
    }
}

/// The place of the input values inside the working crate at `root`.
pub fn inputs_file(root: &str) -> (path: String)
    ensures
        path@ == inputs_file_of(root@),
{
    join3(root, "/", PROVER_INPUT_FILE).concat(".toml")
}

/// The arguments of the prover call that proves the exercise `name`.
pub open spec fn prove_args_of(root: Seq<char>, name: Seq<char>) -> Seq<Seq<char>> {
    seq![
        "prove"@,
        "-b"@,
        artifact_of(root),
        "-w"@,
        witness_of(root, name),
        "-o"@,
        proof_of(root, name),
    ]
}

/// The arguments of the prover call that writes the verification key to
/// `key`.
pub open spec fn write_vk_args_of(root: Seq<char>, key: Seq<char>) -> Seq<Seq<char>> {
    seq!["write_vk"@, "-b"@, artifact_of(root), "-o"@, key]
}

/// The arguments of the prover call that verifies the proof of the exercise
/// `name` against the verification key at `key`.
pub open spec fn verify_args_of(root: Seq<char>, name: Seq<char>, key: Seq<char>) -> Seq<
    Seq<char>,
> {
    seq!["verify"@, "-k"@, key, "-p"@, proof_of(root, name)]
}

/// The compiled program of the working crate at `root`.
pub fn artifact_path(root: &str) -> (path: String)
    ensures
        path@ == artifact_of(root@),
{
    join3(root, "/target/", RUNNER_CRATE).concat(".json")
}

/// The proof of the exercise `name`.
pub fn proof_path(root: &str, name: &str) -> (path: String)
    ensures
        path@ == proof_of(root@, name@),
{
    join3(root, "/target/proof-", name)
}

/// The verification key of the exercise `name`, where it is kept.
pub fn key_path(root: &str, name: &str) -> (path: String)
    ensures
        path@ == key_of(root@, name@),
{
    join3(root, "/target/vk-", name)
}

/// The arguments with which the prover proves the exercise `name`.
pub fn bb_prove_args(root: &str, name: &str) -> (args: Vec<String>)
    ensures
        texts(args@) == prove_args_of(root@, name@),
{
    let mut args: Vec<String> = Vec::new();
    args.push(String::from_str("prove"));
    args.push(String::from_str("-b"));
    args.push(artifact_path(root));
    args.push(String::from_str("-w"));
    args.push(join3(root, "/target/", name).concat(".gz"));
    args.push(String::from_str("-o"));
    args.push(proof_path(root, name));
    assert(texts(args@) =~= prove_args_of(root@, name@));
    args
}

/// The arguments with which the prover writes the verification key to
/// `key`.
pub fn bb_write_vk_args(root: &str, key: &str) -> (args: Vec<String>)
    ensures
        texts(args@) == write_vk_args_of(root@, key@),
{
    let mut args: Vec<String> = Vec::new();
    args.push(String::from_str("write_vk"));
    args.push(String::from_str("-b"));
    args.push(artifact_path(root));
    args.push(String::from_str("-o"));
    args.push(String::from_str(key));
    assert(texts(args@) =~= write_vk_args_of(root@, key@));
    args
}

/// The arguments with which the prover verifies the proof of the exercise
/// `name` against the verification key at `key`.
pub fn bb_verify_args(root: &str, name: &str, key: &str) -> (args: Vec<String>)
    ensures
        texts(args@) == verify_args_of(root@, name@, key@),
{
    let mut args: Vec<String> = Vec::new();
    args.push(String::from_str("verify"));
    args.push(String::from_str("-k"));
    args.push(String::from_str(key));
    args.push(String::from_str("-p"));
    args.push(proof_path(root, name));
    assert(texts(args@) =~= verify_args_of(root@, name@, key@));
    args
}

/// The calls of the prover that prove an exercise and verify its proof.
#[derive(Clone, Debug, PartialEq, Eq)]
pub struct ProverPlan {
    /// The arguments of the call that creates the proof.
    pub prove: Vec<String>,
    /// The arguments of the call that writes the verification key.
    pub write_vk: Vec<String>,
    /// The arguments of the call that verifies the proof.
    pub verify: Vec<String>,
    /// The file to remove when the run is over, however it ended. Failing
    /// to remove it is no failure of the run.
    pub discard: Option<String>,
}

/// What a `ProverPlan` stands for.
pub struct ProverPlanView {
    pub prove: Seq<Seq<char>>,
    pub write_vk: Seq<Seq<char>>,
    pub verify: Seq<Seq<char>>,
    pub discard: Option<Seq<char>>,
}

impl View for ProverPlan {
    type V = ProverPlanView;

    open spec fn view(&self) -> ProverPlanView {
        ProverPlanView {
            prove: texts(self.prove@),
            write_vk: texts(self.write_vk@),
            verify: texts(self.verify@),
            discard: match self.discard {
                Some(path) => Some(path@),
                None => None,
            },
        }
    }
}

/// The calls that prove and verify the exercise `name` with the
/// verification key at `key`.
pub open spec fn prover_plan_of(
    root: Seq<char>,
    name: Seq<char>,
    key: Seq<char>,
    discard: Option<Seq<char>>,
) -> ProverPlanView {
    ProverPlanView {
        prove: prove_args_of(root, name),
        write_vk: write_vk_args_of(root, key),
        verify: verify_args_of(root, name, key),
        discard,
    }
}

/// Plans proving and verifying the exercise `name` so that every file stays:
/// the verification key is written beside the proof, under the exercise's
/// name, and nothing is removed.
pub fn bb_prove_verify_saving_files(root: &str, name: &str) -> (plan: ProverPlan)
    ensures
        plan@ == prover_plan_of(root@, name@, key_of(root@, name@), None),
{
    let key = key_path(root, name);
    ProverPlan {
        prove: bb_prove_args(root, name),
        write_vk: bb_write_vk_args(root, key.as_str()),
        verify: bb_verify_args(root, name, key.as_str()),
        discard: None,
    }
}

/// Plans proving and verifying the exercise `name` so that no intermediate
/// file stays: the verification key is written to the scratch file
/// `scratch`, which is removed when the run is over. The proof is no
/// intermediate file: it stays where `bb_prove_verify_saving_files` puts it.
pub fn bb_prove_and_verify(root: &str, name: &str, scratch: &str) -> (plan: ProverPlan)
    ensures
        plan@ == prover_plan_of(root@, name@, scratch@, Some(scratch@)),
{
    ProverPlan {
        prove: bb_prove_args(root, name),
        write_vk: bb_write_vk_args(root, scratch),
        verify: bb_verify_args(root, name, scratch),
        discard: Some(String::from_str(scratch)),
    }
}

/// Whether `c` is a letter or a digit, as `char::is_alphanumeric` tells it.
pub uninterp spec fn is_alphanumeric(c: char) -> bool;

/// `char::is_alphanumeric` is decided by the character alone. Which
/// characters it counts as letters or digits is not stated here.
pub assume_specification[ char::is_alphanumeric ](c: char) -> (b: bool)
    ensures
        b == is_alphanumeric(c),
;

/// The decimal digit for `d`.
pub open spec fn digit_of(d: nat) -> char {
    seq!['0', '1', '2', '3', '4', '5', '6', '7', '8', '9'][d as int]
}

/// `n` written in decimal digits.
pub open spec fn decimal_of(n: nat) -> Seq<char>
    decreases n,
{
    if n < 10 {
        seq![digit_of(n)]
    } else {
        decimal_of(n / 10).push(digit_of(n % 10))
    }
}

/// The name of a scratch file for the process `process_id` and the thread
/// shown as `thread_id`: of `thread_id` only its letters and digits count.
pub open spec fn temp_file_of(process_id: nat, thread_id: Seq<char>) -> Seq<char> {
    "./temp_"@ + decimal_of(process_id) + "_"@ + thread_id.filter(|c: char| is_alphanumeric(c))
}

/// `n` written in decimal digits.
pub fn decimal(n: u32) -> (digits: String)
    ensures
        digits@ == decimal_of(n as nat),
    decreases n,
{
    let mut digits = if n < 10 {
        String::new()
    } else {
        decimal(n / 10)
    };
    let digit = match n % 10 {
        0 => '0',
        1 => '1',
        2 => '2',
        3 => '3',
        4 => '4',
        5 => '5',
        6 => '6',
        7 => '7',
        8 => '8',
        _ => '9',
    };
    digits.push(digit);
    proof {
        assert(Seq::<char>::empty().push(digit) =~= seq![digit]);
    }
    digits
}

/// The name of a scratch file that two runs at the same time are unlikely
/// to share: it holds the process's number and the letters and digits of
/// the thread's name.
pub fn temp_file(process_id: u32, thread_id: &str) -> (name: String)
    ensures
        name@ == temp_file_of(process_id as nat, thread_id@),
{
    let mut name = join3("./temp_", decimal(process_id).as_str(), "_");
    let ghost head = name@;
    let ghost keep = |c: char| is_alphanumeric(c);
    for c in it: thread_id.chars()
        invariant
            it.seq() == thread_id@,
            keep == |c: char| is_alphanumeric(c),
            name@ == head + thread_id@.take(it.index()).filter(keep),
    {
        let ghost i = it.index();
        proof {
            assert(thread_id@.take(i + 1).drop_last() =~= thread_id@.take(i));
            assert(thread_id@.take(i + 1).last() == c);
            reveal_with_fuel(Seq::filter, 2);
        }
        if c.is_alphanumeric() {
            name.push(c);
            assert(name@ =~= head + thread_id@.take(i + 1).filter(keep));
        }
    }
    proof {
        assert(thread_id@.take(thread_id@.len() as int) =~= thread_id@);
    }
    name
}

/// How a call of the prover ended.
#[derive(Clone, Debug, PartialEq, Eq)]
pub struct ToolRun {
    /// Whether the prover exited with status zero.
    pub success: bool,
    /// What it wrote.
    pub output: ExerciseOutput,
}

/// The outcome of one test written in the exercise.
#[derive(Clone, Debug, PartialEq, Eq)]
pub struct TestReport {
    /// The name of the test.
    pub name: String,
    /// Whether the toolkit counts the test as failed.
    pub failed: bool,
}

/// A failure of `kind` shown as `text`.
pub open spec fn failure_of(kind: FailureKind, text: Seq<char>) -> Result<Seq<char>, StepErrorView> {
    Err(StepErrorView { kind, text })
}

/// The result of staging: no captured output on success, a staging failure
/// with the text of what went wrong otherwise.
pub open spec fn staging_result_of(done: Result<(), String>) -> Result<Seq<char>, StepErrorView> {
    match done {
        Ok(_) => Ok(Seq::empty()),
        Err(error) => failure_of(FailureKind::Staging, error@),
    }
}

/// The result of compiling: no captured output on success, the toolkit's
/// error behind a fixed opening on failure.
pub open spec fn compile_result_of(compiled: Result<(), String>) -> Result<
    Seq<char>,
    StepErrorView,
> {
    match compiled {
        Ok(_) => Ok(Seq::empty()),
        Err(error) => failure_of(
            FailureKind::Toolkit,
            "Failed to compile the program: "@ + error@,
        ),
    }
}

/// The result of executing: no captured output on success, the toolkit's
/// error as it is on failure.
pub open spec fn execute_result_of(executed: Result<Vec<PackageRun>, String>) -> Result<
    Seq<char>,
    StepErrorView,
> {
    match executed {
        Ok(_) => Ok(Seq::empty()),
        Err(error) => failure_of(FailureKind::Toolkit, error@),
    }
}

/// The result of a call of the prover. A prover that could not be started
/// fails with the text of that error. One that ran fails where it did not
/// exit with status zero, with what it wrote to its standard error behind
/// `opening`. Otherwise the call succeeded, with no captured output.
pub open spec fn tool_result_of(called: Result<ToolRun, String>, opening: Seq<char>) -> Result<
    Seq<char>,
    StepErrorView,
> {
    match called {
        Err(error) => failure_of(FailureKind::Prover, error@),
        Ok(run) => if run.success {
            Ok(Seq::empty())
        } else {
            failure_of(FailureKind::Prover, opening + run.output.stderr@)
        },
    }
}

/// The result of the two prover calls that verify a proof. A call that
/// could not be started decides before one that ran, and of two alike the
/// writing of the key decides before the verifying.
pub open spec fn verify_result_of(
    key_written: Result<ToolRun, String>,
    verified: Result<ToolRun, String>,
) -> Result<Seq<char>, StepErrorView> {
    let opening = "Failed to verify the program: "@;
    if key_written is Err {
        tool_result_of(key_written, opening)
    } else if verified is Err {
        tool_result_of(verified, opening)
    } else if !key_written->Ok_0.success {
        tool_result_of(key_written, opening)
    } else {
        tool_result_of(verified, opening)
    }
}

/// Whether some test of `reports` failed.
pub open spec fn any_failed(reports: Seq<TestReport>) -> bool {
    exists|i: int| 0 <= i < reports.len() && (#[trigger] reports[i]).failed
}

/// The result of running the tests: the toolkit's error where it could not
/// run them, one failure for all the tests that failed, no captured output
/// otherwise.
pub open spec fn test_result_of(tested: Result<Vec<TestReport>, String>) -> Result<
    Seq<char>,
    StepErrorView,
> {
    match tested {
        Err(error) => failure_of(FailureKind::Toolkit, error@),
        Ok(reports) => if any_failed(reports@) {
            failure_of(FailureKind::TestFailure, "Some tests failed"@)
        } else {
            Ok(Seq::empty())
        },
    }
}

/// A failure of `kind` shown as `text`.
fn failure(kind: FailureKind, text: String) -> (result: Result<String, StepError>)
    ensures
        result_text(result) == failure_of(kind, text@),
{
    Err(StepError { kind, text })
}

/// What the runner makes of how staging went, where `done` holds the text
/// of what went wrong.
pub fn staged(done: Result<(), String>) -> (result: Result<String, StepError>)
    ensures
        result_text(result) == staging_result_of(done),
{
    match done {
        Ok(_) => Ok(String::new()),
        Err(error) => failure(FailureKind::Staging, error),
    }
}

/// What the runner makes of the toolkit's answer to compiling.
pub fn nargo_compile(compiled: Result<(), String>) -> (result: Result<String, StepError>)
    ensures
        result_text(result) == compile_result_of(compiled),
{
    match compiled {
        Ok(_) => Ok(String::new()),
        Err(error) => failure(
            FailureKind::Toolkit,
            join("Failed to compile the program: ", error.as_str()),
        ),
    }
}

/// One binary package that was executed.
#[derive(Clone, Debug, PartialEq, Eq)]
pub struct PackageRun {
    /// The name of the package.
    pub package: String,
    /// What the program returned, shown as text, if it returned anything.
    pub return_value: Option<String>,
    /// Where the witness was saved.
    pub witness_path: String,
}

/// What the runner makes of the toolkit's answer to executing.
pub fn nargo_execute(executed: Result<Vec<PackageRun>, String>) -> (result: Result<
    String,
    StepError,
>)
    ensures
        result_text(result) == execute_result_of(executed),
{
    match executed {
        Ok(_) => Ok(String::new()),
        Err(error) => failure(FailureKind::Toolkit, error),
    }
}

/// The lines that tell of one executed package.
pub open spec fn witness_lines_of(
    package: Seq<char>,
    return_value: Option<Seq<char>>,
    witness_path: Seq<char>,
) -> Seq<Seq<char>> {
    let solved = "["@ + package + "] Circuit witness successfully solved"@;
    let saved = "["@ + package + "] Witness saved to "@ + witness_path;
    match return_value {
        Some(value) => seq![solved, "["@ + package + "] Circuit output: "@ + value, saved],
        None => seq![solved, saved],
    }
}

/// The lines that tell of one executed package: that its witness was
/// solved, what the program returned if it returned anything, and where the
/// witness was saved.
pub fn witness_lines(run: &PackageRun) -> (lines: Vec<String>)
    ensures
        texts(lines@) == witness_lines_of(
            run.package@,
            match run.return_value {
                Some(value) => Some(value@),
                None => None,
            },
            run.witness_path@,
        ),
{
    let package = run.package.as_str();
    let mut lines: Vec<String> = Vec::new();
    lines.push(join3("[", package, "] Circuit witness successfully solved"));
    match &run.return_value {
        Some(value) => {
            lines.push(join3("[", package, "] Circuit output: ").concat(value.as_str()));
        },
        None => {},
    }
    lines.push(join3("[", package, "] Witness saved to ").concat(run.witness_path.as_str()));
    assert(texts(lines@) =~= witness_lines_of(
        run.package@,
        match run.return_value {
            Some(value) => Some(value@),
            None => None,
        },
        run.witness_path@,
    ));
    lines
}

/// What the runner makes of a prover call, where failures open with
/// `opening`.
fn tool_result(called: Result<ToolRun, String>, opening: &str) -> (result: Result<String, StepError>)
    ensures
        result_text(result) == tool_result_of(called, opening@),
{
    match called {
        Err(error) => failure(FailureKind::Prover, error),
        Ok(run) => if run.success {
            Ok(String::new())
        } else {
            failure(FailureKind::Prover, join(opening, run.output.stderr.as_str()))
        },
    }
}

/// What the runner makes of the prover call that was to create a proof:
/// `Err` stands for a prover that could not be started, with the text of
/// that error.
pub fn bb_prove(proved: Result<ToolRun, String>) -> (result: Result<String, StepError>)
    ensures
        result_text(result) == tool_result_of(proved, "Failed to prove the program: "@),
{
    tool_result(proved, "Failed to prove the program: ")
}

/// What the runner makes of the two prover calls that verify a proof:
/// writing the verification key, then verifying.
pub fn bb_verify(key_written: Result<ToolRun, String>, verified: Result<ToolRun, String>) -> (result:
    Result<String, StepError>)
    ensures
        result_text(result) == verify_result_of(key_written, verified),
{
    let first_decides = match (&key_written, &verified) {
        (Err(_), _) => true,
        (Ok(_), Err(_)) => false,
        (Ok(run), Ok(_)) => !run.success,
    };
    if first_decides {
        tool_result(key_written, "Failed to verify the program: ")
    } else {
        tool_result(verified, "Failed to verify the program: ")
    }
}

/// What the runner makes of the toolkit's answer to running the tests.
pub fn nargo_test(tested: Result<Vec<TestReport>, String>) -> (result: Result<String, StepError>)
    ensures
        result_text(result) == test_result_of(tested),
{
    match tested {
        Err(error) => failure(FailureKind::Toolkit, error),
        Ok(reports) => {
            let mut i: usize = 0;
            while i < reports.len()
                invariant
                    i <= reports.len(),
                    tested == Ok::<Vec<TestReport>, String>(reports),
                    forall|j: int| 0 <= j < i ==> !(#[trigger] reports@[j]).failed,
                decreases reports.len() - i,
            {
                if reports[i].failed {
                    return failure(FailureKind::TestFailure, String::from_str("Some tests failed"));
                }
                i += 1;
            }
            Ok(String::new())
        },
    }
}

} // verus!
