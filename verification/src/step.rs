//! The steps of an invocation, as data: what the world is asked to do next,
//! the states that wait for its answer, and the answers.

use vstd::prelude::*;
use crate::output::{Outcome, OutcomeView};
use crate::platform::{opt_text, ConfigFile, ConfigFileView};
use crate::select::{FinderResult, FinderResultView};
use crate::shell::ShellFamily;
use crate::store::Store;

verus! {

/// What the user asked for by a subcommand.
#[derive(Debug, PartialEq, Eq)]
pub enum Command {
    /// Add a shortcut to the current directory under this name.
    Add { name: String },
    /// List the shortcuts.
    List,
    /// Remove the shortcut of this name.
    Remove { name: String },
    /// Pick a shortcut in the finder.
    Fuzzy,
    /// Print the initialization script of a shell, or install it.
    Init { shell: Option<String>, install: bool },
}

/// The model of a [`Command`].
pub enum CommandView {
    Add { name: Seq<char> },
    List,
    Remove { name: Seq<char> },
    Fuzzy,
    Init { shell: Option<Seq<char>>, install: bool },
}

impl View for Command {
    type V = CommandView;

    open spec fn view(&self) -> CommandView {
        match self {
            Command::Add { name } => CommandView::Add { name: name@ },
            Command::List => CommandView::List,
            Command::Remove { name } => CommandView::Remove { name: name@ },
            Command::Fuzzy => CommandView::Fuzzy,
            Command::Init { shell, install } => CommandView::Init {
                shell: opt_text(*shell),
                install: *install,
            },
        }
    }
}

/// What is to be done once the store is loaded.
#[derive(Debug, PartialEq, Eq)]
pub enum Task {
    /// Go to the shortcut of this name.
    Jump(String),
    /// List the shortcuts.
    List,
    /// Add a shortcut of this name.
    Add(String),
    /// Remove the shortcut of this name.
    Remove(String),
    /// Pick a shortcut in the finder.
    Fuzzy,
}

/// The model of a [`Task`].
pub enum TaskView {
    Jump(Seq<char>),
    List,
    Add(Seq<char>),
    Remove(Seq<char>),
    Fuzzy,
}

impl View for Task {
    type V = TaskView;

    open spec fn view(&self) -> TaskView {
        match self {
            Task::Jump(name) => TaskView::Jump(name@),
            Task::List => TaskView::List,
            Task::Add(name) => TaskView::Add(name@),
            Task::Remove(name) => TaskView::Remove(name@),
            Task::Fuzzy => TaskView::Fuzzy,
        }
    }
}

/// An invocation that waits for the store's file to be read.
#[derive(Debug, PartialEq, Eq)]
pub struct AwaitingStore {
    /// What is to be done with the store.
    pub task: Task,
    /// The file that holds the store.
    pub file: ConfigFile,
    /// The user's home directory, if known.
    pub home: Option<String>,
}

/// The model of an [`AwaitingStore`].
pub struct AwaitingStoreView {
    pub task: TaskView,
    pub file: ConfigFileView,
    pub home: Option<Seq<char>>,
}

impl View for AwaitingStore {
    type V = AwaitingStoreView;

    open spec fn view(&self) -> AwaitingStoreView {
        AwaitingStoreView { task: self.task@, file: self.file@, home: opt_text(self.home) }
    }
}

/// An invocation that waits for the current directory, to add a shortcut to it.
#[derive(Debug, PartialEq, Eq)]
pub struct AwaitingDirectory {
    /// The name of the new shortcut, which the store does not hold.
    pub name: String,
    /// The store as it was loaded.
    pub store: Store,
    /// The file that holds the store.
    pub file: ConfigFile,
    /// The user's home directory, if known.
    pub home: Option<String>,
}

/// The model of an [`AwaitingDirectory`].
pub struct AwaitingDirectoryView {
    pub name: Seq<char>,
    pub store: Map<Seq<char>, Seq<char>>,
    pub file: ConfigFileView,
    pub home: Option<Seq<char>>,
}

impl View for AwaitingDirectory {
    type V = AwaitingDirectoryView;

    open spec fn view(&self) -> AwaitingDirectoryView {
        AwaitingDirectoryView {
            name: self.name@,
            store: self.store@,
            file: self.file@,
            home: opt_text(self.home),
        }
    }
}

/// An invocation that waits for the store's file to be written.
#[derive(Debug, PartialEq, Eq)]
pub struct AwaitingSave {
    /// What is reported once the file is written.
    pub done: Outcome,
}

/// An invocation that waits for the finder to end.
#[derive(Debug, PartialEq, Eq)]
pub struct AwaitingFinder {
    /// The user's home directory, if known.
    pub home: Option<String>,
}

/// An invocation that waits for an initialization script to be written.
#[derive(Debug, PartialEq, Eq)]
pub struct AwaitingScript {}

/// What is to be done next, with the state that takes the answer.
#[derive(Debug, PartialEq, Eq)]
pub enum Step {
    /// Read the file `file` of the state, and hand what was found to
    /// [`AwaitingStore::store_read`].
    ReadStore(AwaitingStore),
    /// Find out the current directory and whether it is a directory, and hand
    /// it to [`AwaitingDirectory::directory`].
    QueryDirectory(AwaitingDirectory),
    /// Make sure that the directory of the file exists, replace the file's
    /// contents with the bytes, and hand the result to [`AwaitingSave::saved`].
    WriteStore(ConfigFile, Vec<u8>, AwaitingSave),
    /// Run the finder with the text on its standard input, and hand how it
    /// ended to [`AwaitingFinder::finder_done`].
    RunFinder(String, AwaitingFinder),
    /// Write the initialization script of the shell family to the file, and
    /// hand the result to [`AwaitingScript::script_written`].
    WriteScript(ConfigFile, ShellFamily, AwaitingScript),
    /// Print the initialization script of the shell family and end
    /// successfully.
    PrintScript(ShellFamily),
    /// Print the outcome and end with its exit code.
    Finish(Outcome),
    /// Give up: the platform names no configuration directory, so there is no
    /// place to keep the store.
    NoConfigDir,
}

/// The model of a [`Step`].
pub enum StepView {
    ReadStore(AwaitingStoreView),
    QueryDirectory(AwaitingDirectoryView),
    WriteStore(ConfigFileView, Seq<u8>, OutcomeView),
    RunFinder(Seq<char>, Option<Seq<char>>),
    WriteScript(ConfigFileView, ShellFamily),
    PrintScript(ShellFamily),
    Finish(OutcomeView),
    NoConfigDir,
}

impl View for Step {
    type V = StepView;

    open spec fn view(&self) -> StepView {
        match self {
            Step::ReadStore(state) => StepView::ReadStore(state@),
            Step::QueryDirectory(state) => StepView::QueryDirectory(state@),
            Step::WriteStore(file, bytes, state) => StepView::WriteStore(
                file@,
                bytes@,
                state.done@,
            ),
            Step::RunFinder(input, state) => StepView::RunFinder(input@, opt_text(state.home)),
            Step::WriteScript(file, family, _) => StepView::WriteScript(file@, *family),
            Step::PrintScript(family) => StepView::PrintScript(*family),
            Step::Finish(outcome) => StepView::Finish(outcome@),
            Step::NoConfigDir => StepView::NoConfigDir,
        }
    }
}

/// How a run of the finder went.
#[derive(Debug, PartialEq, Eq)]
pub enum FinderReport {
    /// The finder ran to its end.
    Ended(FinderResult),
    /// The lines could not be written to the finder, with the cause.
    WriteFailed(String),
    /// Waiting for the finder failed, with the cause.
    WaitFailed(String),
}

/// The model of a [`FinderReport`].
pub enum FinderReportView {
    Ended(FinderResultView),
    WriteFailed(Seq<char>),
    WaitFailed(Seq<char>),
}

impl View for FinderReport {
    type V = FinderReportView;

    open spec fn view(&self) -> FinderReportView {
        match self {
            FinderReport::Ended(result) => FinderReportView::Ended(result@),
            FinderReport::WriteFailed(cause) => FinderReportView::WriteFailed(cause@),
            FinderReport::WaitFailed(cause) => FinderReportView::WaitFailed(cause@),
        }
    }
}

/// How the writing of an initialization script went.
#[derive(Debug, PartialEq, Eq)]
pub enum ScriptWrite {
    /// The script was written to this path.
    Written(String),
    /// The directory for the script could not be made.
    DirectoryFailed { dir: String, cause: String },
    /// The script could not be written, with the cause.
    WriteFailed(String),
}

/// The model of a [`ScriptWrite`].
pub enum ScriptWriteView {
    Written(Seq<char>),
    DirectoryFailed { dir: Seq<char>, cause: Seq<char> },
    WriteFailed(Seq<char>),
}

impl View for ScriptWrite {
    type V = ScriptWriteView;

    open spec fn view(&self) -> ScriptWriteView {
        match self {
            ScriptWrite::Written(path) => ScriptWriteView::Written(path@),
            ScriptWrite::DirectoryFailed { dir, cause } => ScriptWriteView::DirectoryFailed {
                dir: dir@,
                cause: cause@,
            },
            ScriptWrite::WriteFailed(cause) => ScriptWriteView::WriteFailed(cause@),
        }
    }
}

/// The model of an optional command.
pub open spec fn opt_command(command: Option<Command>) -> Option<CommandView> {
    match command {
        Some(command) => Some(command@),
        None => None,
    }
}

/// The text of the failure of a write, if it failed.
pub open spec fn write_view(result: Result<(), String>) -> Result<(), Seq<char>> {
    match result {
        Ok(_) => Ok(()),
        Err(cause) => Err(cause@),
    }
}

} // verus!
