//! Plans: what an operation wants done to the file system, and what doing
//! it means.
//!
//! The library never touches the disk. An operation is handed what its
//! caller found there and answers with a plan, a sequence of steps to carry
//! out in order. The meaning of a plan is given by `run`, over a file
//! system reduced to what the library cares about: which files exist and
//! what they hold.

use vstd::prelude::*;
use crate::error::{ErrorKind, LauncherError};
use crate::game_config::{ConfigView, GameConfig};

verus! {

/// One change to the file system.
#[derive(Debug, PartialEq, Eq)]
pub enum FsAction {
    /// Create a directory and every missing ancestor.
    CreateDirAll { path: String },
    /// Remove a directory and all it holds.
    RemoveDirAll { path: String },
    /// Remove one file.
    RemoveFile { path: String },
    /// Copy the content of one file to another path.
    CopyFile { from: String, to: String },
    /// Write bytes to a file, replacing what it held.
    WriteFile { path: String, bytes: Vec<u8> },
    /// Write a configuration document to a file, replacing what it held.
    WriteConfig { path: String, config: GameConfig },
}

/// What is to happen when a step cannot be carried out.
#[derive(Debug, PartialEq, Eq)]
pub enum OnFailure {
    /// The step was an attempt: go on with the next one.
    Continue,
    /// Give up the rest of the plan and report a failure whose message
    /// starts with `context`.
    Fail { context: String },
}

/// One step of a plan.
#[derive(Debug, PartialEq, Eq)]
pub struct Step {
    pub action: FsAction,
    pub on_failure: OnFailure,
}

/// The mathematical content of an `FsAction`.
pub enum ActionView {
    CreateDirAll { path: Seq<char> },
    RemoveDirAll { path: Seq<char> },
    RemoveFile { path: Seq<char> },
    CopyFile { from: Seq<char>, to: Seq<char> },
    WriteFile { path: Seq<char>, bytes: Seq<u8> },
    WriteConfig { path: Seq<char>, config: ConfigView },
}

/// The mathematical content of a `Step`: its action, and the context of
/// the failure it reports, if it reports one.
pub struct StepView {
    pub action: ActionView,
    pub on_failure: Option<Seq<char>>,
}

impl View for FsAction {
    type V = ActionView;

    open spec fn view(&self) -> ActionView {
        match *self {
            FsAction::CreateDirAll { path } => ActionView::CreateDirAll { path: path@ },
            FsAction::RemoveDirAll { path } => ActionView::RemoveDirAll { path: path@ },
            FsAction::RemoveFile { path } => ActionView::RemoveFile { path: path@ },
            FsAction::CopyFile { from, to } => ActionView::CopyFile { from: from@, to: to@ },
            FsAction::WriteFile { path, bytes } => ActionView::WriteFile {
                path: path@,
                bytes: bytes@,
            },
            FsAction::WriteConfig { path, config } => ActionView::WriteConfig {
                path: path@,
                config: config@,
            },
        }
    }
}

impl View for OnFailure {
    type V = Option<Seq<char>>;

    open spec fn view(&self) -> Option<Seq<char>> {
        match *self {
            OnFailure::Continue => None,
            OnFailure::Fail { context } => Some(context@),
        }
    }
}

impl View for Step {
    type V = StepView;

    open spec fn view(&self) -> StepView {
        StepView { action: self.action@, on_failure: self.on_failure@ }
    }
}

/// The views of the steps of a plan.
pub open spec fn plan_view(plan: Seq<Step>) -> Seq<StepView> {
    plan.map_values(|s: Step| s@)
}

/// A step that is tried and whose failure is passed over.
pub open spec fn attempted(action: ActionView) -> StepView {
    StepView { action, on_failure: None }
}

/// A step whose failure ends the plan, reported under `context`.
pub open spec fn demanded(action: ActionView, context: Seq<char>) -> StepView {
    StepView { action, on_failure: Some(context) }
}

/// What a file holds.
pub enum FileData {
    Bytes(Seq<u8>),
    Config(ConfigView),
}

/// A file system: the files that exist, by path, and what each holds.
pub type Files = Map<Seq<char>, FileData>;

/// Whether the path `p` lies below the directory `dir`: it starts with
/// `dir` and goes on behind a separator, which may be the one that `dir`
/// itself ends in.
pub open spec fn inside(dir: Seq<char>, p: Seq<char>) -> bool {
    &&& p.len() > dir.len()
    &&& p.take(dir.len() as int) == dir
    &&& (p[dir.len() as int] == '/' || (dir.len() > 0 && dir.last() == '/'))
}

/// The file system after one action. Copying from a file that does not
/// exist changes nothing.
pub open spec fn effect(fs: Files, action: ActionView) -> Files {
    match action {
        ActionView::CreateDirAll { path } => fs,
        ActionView::RemoveDirAll { path } => Map::new(
            |p: Seq<char>| fs.dom().contains(p) && p != path && !inside(path, p),
            |p: Seq<char>| fs[p],
        ),
        ActionView::RemoveFile { path } => fs.remove(path),
        ActionView::CopyFile { from, to } => if fs.dom().contains(from) {
            fs.insert(to, fs[from])
        } else {
            fs
        },
        ActionView::WriteFile { path, bytes } => fs.insert(path, FileData::Bytes(bytes)),
        ActionView::WriteConfig { path, config } => fs.insert(path, FileData::Config(config)),
    }
}

/// The file system after every step of a plan was carried out in order.
pub open spec fn run(fs: Files, plan: Seq<StepView>) -> Files
    decreases plan.len(),
{
    if plan.len() == 0 {
        fs
    } else {
        effect(run(fs, plan.drop_last()), plan.last().action)
    }
}

/// Carrying out two plans one after the other is carrying out their
/// concatenation.
pub proof fn lemma_run_concat(fs: Files, first: Seq<StepView>, second: Seq<StepView>)
    ensures
        run(fs, first + second) == run(run(fs, first), second),
    decreases second.len(),
{
    if second.len() == 0 {
        assert(first + second =~= first);
    } else {
        assert((first + second).drop_last() =~= first + second.drop_last());
        assert((first + second).last() == second.last());
        lemma_run_concat(fs, first, second.drop_last());
    }
}

/// Carrying out a plan of one step is carrying out that step.
pub proof fn lemma_run_one(fs: Files, step: StepView)
    ensures
        run(fs, seq![step]) == effect(fs, step.action),
{
    assert(seq![step].drop_last() =~= Seq::<StepView>::empty());
    assert(run(fs, seq![step].drop_last()) == fs);
}

impl Step {
    /// A step that creates a directory, passing over a failure.
    pub fn try_create_dir(path: String) -> (step: Step)
        ensures
            step@ == attempted(ActionView::CreateDirAll { path: path@ }),
    {
        Step::attempt(FsAction::CreateDirAll { path })
    }

    /// A step that removes a file, passing over a failure.
    pub fn try_remove_file(path: String) -> (step: Step)
        ensures
            step@ == attempted(ActionView::RemoveFile { path: path@ }),
    {
        Step::attempt(FsAction::RemoveFile { path })
    }

    /// A step whose failure is passed over.
    pub fn attempt(action: FsAction) -> (step: Step)
        ensures
            step@ == attempted(action@),
    {
        Step { action, on_failure: OnFailure::Continue }
    }

    /// A step whose failure ends the plan with a message that starts with
    /// `context`.
    pub fn required(action: FsAction, context: String) -> (step: Step)
        ensures
            step@ == demanded(action@, context@),
    {
        Step { action, on_failure: OnFailure::Fail { context } }
    }

    /// What to report when this step could not be carried out for the
    /// reason `why`: nothing for an attempt, else an I/O failure whose
    /// message is the step's context followed by the reason.
    pub fn failed(&self, why: &str) -> (report: Option<LauncherError>)
        ensures
            match self@.on_failure {
                None => report is None,
                Some(context) => report matches Some(e) && e.is(ErrorKind::Io, context + why@),
            },
    {
        match &self.on_failure {
            OnFailure::Continue => None,
            OnFailure::Fail { context } => Some(
                LauncherError::new(ErrorKind::Io, context.as_str(), why),
            ),
        }
    }
}

} // verus!
