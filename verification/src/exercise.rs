//! Exercises and their execution modes.

use crate::marker::{completion_of, detect};
use crate::noir::{
    bb_prove_and_verify, bb_prove_args, bb_prove_verify_saving_files, key_of,
    prepare_crate_for_exercise, prove_args_of, prover_plan_of, staging_of, ProverPlan, StagingPlan,
};
use crate::text::texts;
pub use crate::marker::{ContextLine, State};
use vstd::prelude::*;

verus! {

/// The input values of a run: the text itself, or the path of a file that
/// holds it.
#[derive(Clone, Debug, PartialEq, Eq)]
pub enum TomlFile {
    Inlined(String),
    Referenced(String),
}

/// What a `TomlFile` stands for.
pub enum TomlFileView {
    Inlined(Seq<char>),
    Referenced(Seq<char>),
}

impl View for TomlFile {
    type V = TomlFileView;

    open spec fn view(&self) -> TomlFileView {
        match self {
            TomlFile::Inlined(text) => TomlFileView::Inlined(text@),
            TomlFile::Referenced(path) => TomlFileView::Referenced(path@),
        }
    }
}

/// A referenced input file could not be opened or read.
#[derive(Clone, Debug, PartialEq, Eq)]
pub struct ConfigReadError {
    /// The path that was referenced.
    pub path: String,
}

impl TomlFile {
    /// The text that the payload resolves to, where reading a referenced
    /// file gave `file`: `None` stands for a file that could not be read.
    pub open spec fn resolved(self, file: Option<Seq<char>>) -> Result<Seq<char>, Seq<char>> {
        match self {
            TomlFile::Inlined(text) => Ok(text@),
            TomlFile::Referenced(path) => match file {
                Some(text) => Ok(text),
                None => Err(path@),
            },
        }
    }

    /// The path of the file to read before resolving, if the payload
    /// refers to one.
    pub fn referenced_path(&self) -> (path: Option<String>)
        ensures
            match *self {
                TomlFile::Inlined(_) => path is None,
                TomlFile::Referenced(p) => path matches Some(q) && q@ == p@,
            },
    {
        match self {
            TomlFile::Inlined(_) => None,
            TomlFile::Referenced(p) => Some(p.clone()),
        }
    }

    /// Resolves the payload to its text. Inline text is returned as it is,
    /// whatever `file` holds. A reference resolves to the text that was read
    /// from its file, handed in as `file`, and fails where that is `None`.
    pub fn to_string(&self, file: Option<String>) -> (text: Result<String, ConfigReadError>)
        ensures
            match self.resolved(
                match file {
                    Some(t) => Some(t@),
                    None => None,
                },
            ) {
                Ok(t) => text matches Ok(s) && s@ == t,
                Err(p) => text matches Err(e) && e.path@ == p,
            },
    {
        match self {
            TomlFile::Inlined(text) => Ok(text.clone()),
            TomlFile::Referenced(path) => match file {
                Some(text) => Ok(text),
                None => Err(ConfigReadError { path: path.clone() }),
            },
        }
    }
}

/// The payload of the prove-and-verify mode.
#[derive(Clone, Debug, PartialEq, Eq)]
pub struct BbVerifyOptions {
    /// The input values of the run.
    pub toml_file: TomlFile,
    /// Whether the intermediate files of the proof are kept.
    pub save_files: bool,
}

/// What a `BbVerifyOptions` stands for.
pub struct BbVerifyOptionsView {
    pub toml_file: TomlFileView,
    pub save_files: bool,
}

impl View for BbVerifyOptions {
    type V = BbVerifyOptionsView;

    open spec fn view(&self) -> BbVerifyOptionsView {
        BbVerifyOptionsView { toml_file: self.toml_file@, save_files: self.save_files }
    }
}

/// How an exercise is run.
#[derive(Clone, Debug, PartialEq, Eq)]
pub enum Mode {
    /// Compile the exercise.
    Build,
    /// Execute it on the given inputs and save the witness.
    Execute(TomlFile),
    /// Execute it, then create a proof.
    ProveOnly(TomlFile),
    /// Execute it, create a proof, then verify the proof.
    ProveAndVerify(BbVerifyOptions),
    /// Run the tests written in the exercise.
    Test,
}

/// What a `Mode` stands for.
pub enum ModeView {
    Build,
    Execute(TomlFileView),
    ProveOnly(TomlFileView),
    ProveAndVerify(BbVerifyOptionsView),
    Test,
}

impl View for Mode {
    type V = ModeView;

    open spec fn view(&self) -> ModeView {
        match self {
            Mode::Build => ModeView::Build,
            Mode::Execute(inputs) => ModeView::Execute(inputs@),
            Mode::ProveOnly(inputs) => ModeView::ProveOnly(inputs@),
            Mode::ProveAndVerify(options) => ModeView::ProveAndVerify(options@),
            Mode::Test => ModeView::Test,
        }
    }
}

impl Mode {
    /// The input payload that the mode carries, if it carries one.
    pub open spec fn inputs(self) -> Option<TomlFile> {
        match self {
            Mode::Build => None,
            Mode::Execute(inputs) => Some(inputs),
            Mode::ProveOnly(inputs) => Some(inputs),
            Mode::ProveAndVerify(options) => Some(options.toml_file),
            Mode::Test => None,
        }
    }

    /// The input payload that the mode carries, if it carries one.
    pub fn input_payload(&self) -> (payload: Option<TomlFile>)
        ensures
            match self.inputs() {
                Some(inputs) => payload matches Some(p) && p@ == inputs@,
                None => payload is None,
            },
    {
        match self {
            Mode::Build => None,
            Mode::Execute(inputs) => Some(clone_toml_file(inputs)),
            Mode::ProveOnly(inputs) => Some(clone_toml_file(inputs)),
            Mode::ProveAndVerify(options) => Some(clone_toml_file(&options.toml_file)),
            Mode::Test => None,
        }
    }
}

/// A copy of `file`.
pub fn clone_toml_file(file: &TomlFile) -> (copy: TomlFile)
    ensures
        copy@ == file@,
{
    match file {
        TomlFile::Inlined(text) => TomlFile::Inlined(text.clone()),
        TomlFile::Referenced(path) => TomlFile::Referenced(path.clone()),
    }
}

/// One exercise: a source file with the way to run it.
#[derive(Clone, Debug, PartialEq, Eq)]
pub struct Exercise {
    /// The name of the exercise, unique within a run.
    pub name: String,
    /// The path of the file that holds the exercise's source.
    pub path: String,
    /// How the exercise is run.
    pub mode: Mode,
    /// The hint shown for the exercise.
    pub hint: String,
}

/// The exercises of a manifest, in order.
#[derive(Clone, Debug, PartialEq, Eq)]
pub struct ExerciseList {
    pub exercises: Vec<Exercise>,
}

/// The captured output of a command that ran.
#[derive(Clone, Debug, PartialEq, Eq)]
pub struct ExerciseOutput {
    /// What the command wrote to its standard output.
    pub stdout: String,
    /// What the command wrote to its standard error.
    pub stderr: String,
}

impl Exercise {
    /// What building asks for: the exercise's source staged into the
    /// working crate at `root`, without input values.
    pub fn build(&self, root: &str) -> (plan: StagingPlan)
        ensures
            plan@ == staging_of(root@, self.path@, None),
    {
        prepare_crate_for_exercise(root, self.path.as_str(), None)
    }

    /// What executing asks for: the exercise's source staged into the
    /// working crate at `root`, with `prover_toml` as its input values. The
    /// witness is saved under the exercise's name.
    pub fn execute(&self, root: &str, prover_toml: TomlFile) -> (plan: StagingPlan)
        ensures
            plan@ == staging_of(root@, self.path@, Some(prover_toml@)),
    {
        prepare_crate_for_exercise(root, self.path.as_str(), Some(prover_toml))
    }

    /// The arguments of the prover call that creates the exercise's proof
    /// in the working crate at `root`.
    pub fn create_proof(&self, root: &str) -> (args: Vec<String>)
        ensures
            texts(args@) == prove_args_of(root@, self.name@),
    {
        bb_prove_args(root, self.name.as_str())
    }

    /// The prover calls that prove the exercise and verify its proof in the
    /// working crate at `root`. With `saving_files` the verification key is
    /// kept beside the proof; without, it goes to the scratch file
    /// `scratch`, which is to be removed afterwards.
    pub fn prove_verify_proof(&self, root: &str, saving_files: bool, scratch: &str) -> (plan:
        ProverPlan)
        ensures
            plan@ == if saving_files {
                prover_plan_of(root@, self.name@, key_of(root@, self.name@), None)
            } else {
                prover_plan_of(root@, self.name@, scratch@, Some(scratch@))
            },
    {
        if saving_files {
            bb_prove_verify_saving_files(root, self.name.as_str())
        } else {
            bb_prove_and_verify(root, self.name.as_str(), scratch)
        }
    }

    /// What testing asks for: the exercise's source staged into the working
    /// crate at `root`, without input values.
    pub fn test(&self, root: &str) -> (plan: StagingPlan)
        ensures
            plan@ == staging_of(root@, self.path@, None),
    {
        prepare_crate_for_exercise(root, self.path.as_str(), None)
    }

    /// What staging asks for in the exercise's own mode: its source staged
    /// into the working crate at `root`, with the input values that the
    /// mode carries, if it carries any.
    pub fn staging(&self, root: &str) -> (plan: StagingPlan)
        ensures
            plan@ == staging_of(
                root@,
                self.path@,
                match self.mode.inputs() {
                    Some(inputs) => Some(inputs@),
                    None => None,
                },
            ),
    {
        match self.mode.input_payload() {
            Some(inputs) => self.execute(root, inputs),
            None => self.build(root),
        }
    }

    /// Whether a run of the exercise keeps the intermediate files of its
    /// proof: every mode does but proving and verifying with `save_files`
    /// off.
    pub open spec fn keeps_files(self) -> bool {
        match self.mode {
            Mode::ProveAndVerify(options) => options.save_files,
            _ => true,
        }
    }

    /// The prover calls of the exercise in its own mode, in the working
    /// crate at `root`, with `scratch` as the scratch file of a run that
    /// keeps no intermediate files.
    pub fn prover_calls(&self, root: &str, scratch: &str) -> (plan: ProverPlan)
        ensures
            plan@ == if self.keeps_files() {
                prover_plan_of(root@, self.name@, key_of(root@, self.name@), None)
            } else {
                prover_plan_of(root@, self.name@, scratch@, Some(scratch@))
            },
    {
        let saving_files = match &self.mode {
            Mode::ProveAndVerify(options) => options.save_files,
            _ => true,
        };
        self.prove_verify_proof(root, saving_files, scratch)
    }

    /// The state of the exercise, where `source` is the text of its file.
    pub fn state(&self, source: &str) -> (state: State)
        ensures
            state@ == completion_of(source@),
    {
        detect(source)
    }

    /// Whether the exercise looks solved, where `source` is the text of its
    /// file: whether no marker line is left in it.
    pub fn looks_done(&self, source: &str) -> (done: bool)
        ensures
            done == (completion_of(source@) is Done),
    {
        match self.state(source) {
            State::Done => true,
            State::Pending(_) => false,
        }
    }

    /// The exercise as it is named in messages: by the path of its file.
    pub fn to_string(&self) -> (text: String)
        ensures
            text@ == self.path@,
    {
        self.path.clone()
    }
}

} // verus!
