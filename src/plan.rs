use vstd::prelude::*;
use crate::cli::Arch;

verus! {

/// Maps a sequence of strings to the sequence of their characters.
pub open spec fn strs(v: Seq<String>) -> Seq<Seq<char>> {
    v.map_values(|s: String| s@)
}

/// A pipeline stage, which a step and an error belong to.
#[derive(Clone, Copy, Debug, PartialEq, Eq, Structural)]
pub enum Stage {
    Bootloader,
    Kernel,
    Os,
    Image,
    Emulator,
}

/// Whether a plan is only reported (a dry run) or also carried out.
#[derive(Clone, Copy, Debug, PartialEq, Eq, Structural)]
pub enum Mode {
    Plan,
    Execute,
}

pub open spec fn mode_of(dry_run: bool) -> Mode {
    if dry_run {
        Mode::Plan
    } else {
        Mode::Execute
    }
}

pub fn mode_for(dry_run: bool) -> (r: Mode)
    ensures
        r == mode_of(dry_run),
{
    if dry_run {
        Mode::Plan
    } else {
        Mode::Execute
    }
}

/// One external command: program, arguments, working directory, extra environment,
/// and a label that names it in errors.
#[derive(Debug)]
pub struct CommandSpec {
    pub program: String,
    pub args: Vec<String>,
    pub cwd: String,
    pub env: Vec<(String, String)>,
    pub label: String,
}

pub struct CommandModel {
    pub program: Seq<char>,
    pub args: Seq<Seq<char>>,
    pub cwd: Seq<char>,
    pub env: Seq<(Seq<char>, Seq<char>)>,
    pub label: Seq<char>,
}

impl View for CommandSpec {
    type V = CommandModel;

    open spec fn view(&self) -> CommandModel {
        CommandModel {
            program: self.program@,
            args: strs(self.args@),
            cwd: self.cwd@,
            env: self.env@.map_values(|e: (String, String)| (e.0@, e.1@)),
            label: self.label@,
        }
    }
}

/// A file written into the disk image: its path inside the volume and its host source.
#[derive(Debug)]
pub struct VolumeFile {
    pub volume_path: String,
    pub source: String,
}

/// A FAT32 disk image to build: the host file, its length in bytes, the directories
/// to ensure inside the volume (parents first), and the files to write.
#[derive(Debug)]
pub struct ImageSpec {
    pub path: String,
    pub size_bytes: u64,
    pub dirs: Vec<String>,
    pub files: Vec<VolumeFile>,
}

pub struct ImageModel {
    pub path: Seq<char>,
    pub size_bytes: nat,
    pub dirs: Seq<Seq<char>>,
    pub files: Seq<(Seq<char>, Seq<char>)>,
}

impl View for ImageSpec {
    type V = ImageModel;

    open spec fn view(&self) -> ImageModel {
        ImageModel {
            path: self.path@,
            size_bytes: self.size_bytes as nat,
            dirs: strs(self.dirs@),
            files: self.files@.map_values(|f: VolumeFile| (f.volume_path@, f.source@)),
        }
    }
}

/// One side effect of a stage.
#[derive(Debug)]
pub enum Action {
    /// Create a directory and its missing parents.
    CreateDir(String),
    /// Fail unless the file exists.
    RequireFile(String),
    /// Run an external command to completion.
    Run(CommandSpec),
    /// Mirror the contents of a directory into another.
    CopyTree { from: String, to: String },
    /// Copy one file, overwriting the destination.
    CopyFile { from: String, to: String },
    /// Build a disk image.
    AssembleImage(ImageSpec),
}

pub enum ActionModel {
    CreateDir(Seq<char>),
    RequireFile(Seq<char>),
    Run(CommandModel),
    CopyTree(Seq<char>, Seq<char>),
    CopyFile(Seq<char>, Seq<char>),
    AssembleImage(ImageModel),
}

impl View for Action {
    type V = ActionModel;

    open spec fn view(&self) -> ActionModel {
        match self {
            Action::CreateDir(p) => ActionModel::CreateDir(p@),
            Action::RequireFile(p) => ActionModel::RequireFile(p@),
            Action::Run(c) => ActionModel::Run(c@),
            Action::CopyTree { from, to } => ActionModel::CopyTree(from@, to@),
            Action::CopyFile { from, to } => ActionModel::CopyFile(from@, to@),
            Action::AssembleImage(i) => ActionModel::AssembleImage(i@),
        }
    }
}

/// An action together with the stage that owns it.
#[derive(Debug)]
pub struct Step {
    pub stage: Stage,
    pub action: Action,
}

impl View for Step {
    type V = (Stage, ActionModel);

    open spec fn view(&self) -> (Stage, ActionModel) {
        (self.stage, self.action@)
    }
}

pub open spec fn steps_view(v: Seq<Step>) -> Seq<(Stage, ActionModel)> {
    v.map_values(|s: Step| s@)
}

/// The steps of a plan that are carried out: all of them, or none in a dry run.
pub open spec fn performed_steps<T>(mode: Mode, steps: Seq<T>) -> Seq<T> {
    if mode == Mode::Execute {
        steps
    } else {
        Seq::empty()
    }
}

/// What a stage would do, in order, and whether it is to be carried out.
#[derive(Debug)]
pub struct StagePlan {
    pub mode: Mode,
    pub steps: Vec<Step>,
}

impl StagePlan {
    pub open spec fn steps_model(&self) -> Seq<(Stage, ActionModel)> {
        steps_view(self.steps@)
    }

    /// The steps that are carried out.
    pub open spec fn performed(&self) -> Seq<(Stage, ActionModel)> {
        performed_steps(self.mode, self.steps_model())
    }
}

/// What went wrong when a step was carried out, as the host observed it.
#[derive(Debug)]
pub enum Failure {
    /// The command could not be started.
    Spawn(String),
    /// The command exited unsuccessfully, with its exit code if it had one.
    Exit(Option<i32>),
    /// A file or directory that the step reads does not exist.
    Missing(String),
    /// An entry that is neither a regular file nor a directory was met.
    Unsupported(String),
    /// Creating the filesystem inside the disk image failed.
    Format(String),
    /// Another filesystem operation failed.
    Io(String),
}

pub enum FailureModel {
    Spawn(Seq<char>),
    Exit(Option<i32>),
    Missing(Seq<char>),
    Unsupported(Seq<char>),
    Format(Seq<char>),
    Io(Seq<char>),
}

impl View for Failure {
    type V = FailureModel;

    open spec fn view(&self) -> FailureModel {
        match self {
            Failure::Spawn(m) => FailureModel::Spawn(m@),
            Failure::Exit(c) => FailureModel::Exit(*c),
            Failure::Missing(p) => FailureModel::Missing(p@),
            Failure::Unsupported(p) => FailureModel::Unsupported(p@),
            Failure::Format(m) => FailureModel::Format(m@),
            Failure::Io(m) => FailureModel::Io(m@),
        }
    }
}

/// The kinds of error of the pipeline.
#[derive(Debug)]
pub enum ErrorKind {
    /// The stage's toolchain has no target for the architecture.
    UnsupportedTarget(Arch),
    /// A required input file is absent.
    MissingInput(String),
    /// The command with this label could not be started.
    Launch { label: String, message: String },
    /// The command with this label exited unsuccessfully.
    Execution { label: String, code: Option<i32> },
    /// An expected artifact or directory is absent.
    SourceMissing(String),
    /// An entry that is neither a regular file nor a directory.
    UnsupportedEntry(String),
    /// Creating the filesystem of the disk image failed.
    Format(String),
    /// Writing failed.
    Write(String),
}

pub enum ErrorModel {
    UnsupportedTarget(Arch),
    MissingInput(Seq<char>),
    Launch(Seq<char>, Seq<char>),
    Execution(Seq<char>, Option<i32>),
    SourceMissing(Seq<char>),
    UnsupportedEntry(Seq<char>),
    Format(Seq<char>),
    Write(Seq<char>),
}

impl View for ErrorKind {
    type V = ErrorModel;

    open spec fn view(&self) -> ErrorModel {
        match self {
            ErrorKind::UnsupportedTarget(a) => ErrorModel::UnsupportedTarget(*a),
            ErrorKind::MissingInput(p) => ErrorModel::MissingInput(p@),
            ErrorKind::Launch { label, message } => ErrorModel::Launch(label@, message@),
            ErrorKind::Execution { label, code } => ErrorModel::Execution(label@, *code),
            ErrorKind::SourceMissing(p) => ErrorModel::SourceMissing(p@),
            ErrorKind::UnsupportedEntry(p) => ErrorModel::UnsupportedEntry(p@),
            ErrorKind::Format(m) => ErrorModel::Format(m@),
            ErrorKind::Write(m) => ErrorModel::Write(m@),
        }
    }
}

/// An error together with the stage in which it happened.
#[derive(Debug)]
pub struct StageError {
    pub stage: Stage,
    pub kind: ErrorKind,
}

impl View for StageError {
    type V = (Stage, ErrorModel);

    open spec fn view(&self) -> (Stage, ErrorModel) {
        (self.stage, self.kind@)
    }
}

/// The error that a failure of an action amounts to: a command's failures carry its
/// label; a missing file is a missing input where the action checks for inputs, else a
/// missing source. Where the action names the path it reads, the error names that path;
/// for an image it names the source file that was missing.
pub open spec fn classify_model(action: ActionModel, failure: FailureModel) -> ErrorModel {
    match failure {
        FailureModel::Spawn(m) => ErrorModel::Launch(label_of(action), m),
        FailureModel::Exit(c) => ErrorModel::Execution(label_of(action), c),
        FailureModel::Missing(p) => match action {
            ActionModel::RequireFile(q) => ErrorModel::MissingInput(q),
            ActionModel::CopyTree(from, _) => ErrorModel::SourceMissing(from),
            ActionModel::CopyFile(from, _) => ErrorModel::SourceMissing(from),
            _ => ErrorModel::SourceMissing(p),
        },
        FailureModel::Unsupported(p) => ErrorModel::UnsupportedEntry(p),
        FailureModel::Format(m) => ErrorModel::Format(m),
        FailureModel::Io(m) => ErrorModel::Write(m),
    }
}

/// The label of a command; other actions have none.
pub open spec fn label_of(action: ActionModel) -> Seq<char> {
    match action {
        ActionModel::Run(c) => c.label,
        _ => Seq::empty(),
    }
}

fn action_label(action: &Action) -> (r: String)
    ensures
        r@ == label_of(action@),
{
    match action {
        Action::Run(c) => c.label.clone(),
        _ => String::new(),
    }
}

/// The error that `failure` of `action` amounts to.
pub fn classify(action: &Action, failure: Failure) -> (r: ErrorKind)
    ensures
        r@ == classify_model(action@, failure@),
{
    match failure {
        Failure::Spawn(message) => ErrorKind::Launch { label: action_label(action), message },
        Failure::Exit(code) => ErrorKind::Execution { label: action_label(action), code },
        Failure::Missing(p) => match action {
            Action::RequireFile(q) => ErrorKind::MissingInput(q.clone()),
            Action::CopyTree { from, .. } => ErrorKind::SourceMissing(from.clone()),
            Action::CopyFile { from, .. } => ErrorKind::SourceMissing(from.clone()),
            _ => ErrorKind::SourceMissing(p),
        },
        Failure::Unsupported(p) => ErrorKind::UnsupportedEntry(p),
        Failure::Format(m) => ErrorKind::Format(m),
        Failure::Io(m) => ErrorKind::Write(m),
    }
}

} // verus!
