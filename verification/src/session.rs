//! The course of an invocation. What an invocation does to the world (reading
//! and writing files, asking for the current directory, running the finder) is
//! not done here: each function of this module decides the next step from what
//! the previous one brought, and hands out what is to be done together with the
//! state that waits for the answer.

use vstd::prelude::*;
use vstd::string::*;
use crate::listing::list_shortcuts;
use crate::output::{told, LineView, Outcome, Span, Style, EXIT_FAILURE, EXIT_OK};
use crate::persist::{is_load_of, load_shortcuts, load_view, save_shortcuts, LoadError, StoreFile};
use crate::platform::{opt_text, store_file_of, ConfigFile, Environment, EnvironmentView};
use crate::portable::normalize_with_home;
use crate::protocol::{
    add_step, added_line, command_step, directory_step, finder_step, first_step, fuzzy_step,
    init_step, jump_step, loaded_step, remove_step, save_step, saved_step, script_step,
    shortcut_step, with_store,
};
use crate::select::{fuzzy_input, fuzzy_result, resolve, SelectError};
use crate::shell::{script_file_name, shell_family};
use crate::step::{
    opt_command, write_view, AwaitingDirectory, AwaitingFinder, AwaitingSave, AwaitingScript,
    AwaitingStore, Command, FinderReport, ScriptWrite, Step, StepView, Task, TaskView,
};
use crate::store::Store;

verus! {

/// A copy of an optional text.
fn copy_text(text: &Option<String>) -> (r: Option<String>)
    ensures
        opt_text(r) == opt_text(*text),
{
    match text {
        Some(text) => Some(text.clone()),
        None => None,
    }
}

/// `a` followed by `b`.
fn join2(a: &str, b: &str) -> (r: String)
    ensures
        r@ == a@ + b@,
{
    String::from_str(a).concat(b)
}

/// `a` followed by `b` and `c`.
fn join3(a: &str, b: &str, c: &str) -> (r: String)
    ensures
        r@ == a@ + b@ + c@,
{
    String::from_str(a).concat(b).concat(c)
}

/// The step that fetches the store for `task`.
fn fetch_store(task: Task, env: &Environment) -> (step: Step)
    ensures
        step@ == with_store(task@, env@),
{
    match store_file_of(env) {
        Some(file) => Step::ReadStore(AwaitingStore { task, file, home: copy_text(&env.home) }),
        None => Step::NoConfigDir,
    }
}

/// The step that saves `store` to `file`, with `done` to be reported once the
/// file is written.
fn save(store: &Store, file: ConfigFile, done: Outcome) -> (step: Step)
    ensures
        step@ == save_step(store@, file@, done@),
{
    match save_shortcuts(store) {
        Ok(bytes) => Step::WriteStore(file, bytes, AwaitingSave { done }),
        Err(error) => Step::Finish(
            Outcome::fail(join2("Could not save shortcuts: ", error.cause.as_str()), EXIT_FAILURE),
        ),
    }
}

/// The first step of an invocation without a subcommand, in the environment
/// `env`: going to the shortcut that is named, or listing the shortcuts where
/// none is named.
pub fn try_handle_shortcut_in(shortcut: &Option<String>, env: &Environment) -> (step: Step)
    ensures
        step@ == shortcut_step(opt_text(*shortcut), env@),
{
    match shortcut {
        Some(name) => fetch_store(Task::Jump(name.clone()), env),
        None => handle_list(env),
    }
}

/// The first step of an invocation without a subcommand, in the environment
/// of this process.
pub fn try_handle_shortcut(shortcut: &Option<String>) -> (step: Step)
    ensures
        exists|env: EnvironmentView| step@ == #[trigger] shortcut_step(opt_text(*shortcut), env),
{
    let env = Environment::detect();
    try_handle_shortcut_in(shortcut, &env)
}

/// The first step of listing the shortcuts.
pub fn handle_list(env: &Environment) -> (step: Step)
    ensures
        step@ == with_store(TaskView::List, env@),
{
    fetch_store(Task::List, env)
}

/// The first step of adding the shortcut `name`: an empty name is refused
/// before anything is read.
pub fn handle_add(name: &str, env: &Environment) -> (step: Step)
    ensures
        step@ == add_step(name@, env@),
{
    if name.unicode_len() == 0 {
        Step::Finish(Outcome::fail(String::from_str("Shortcut name cannot be empty"), EXIT_OK))
    } else {
        fetch_store(Task::Add(String::from_str(name)), env)
    }
}

/// The first step of removing the shortcut `name`.
pub fn handle_remove(name: &str, env: &Environment) -> (step: Step)
    ensures
        step@ == with_store(TaskView::Remove(name@), env@),
{
    fetch_store(Task::Remove(String::from_str(name)), env)
}

/// The first step of picking a shortcut in the finder.
pub fn handle_fuzzy(env: &Environment) -> (step: Step)
    ensures
        step@ == with_store(TaskView::Fuzzy, env@),
{
    fetch_store(Task::Fuzzy, env)
}

/// The first step of `init`: the script of the shell's family is to be
/// printed, or installed below the configuration directory; a shell without a
/// script is reported.
pub fn handle_init(shell: &Option<String>, install: bool, env: &Environment) -> (step: Step)
    ensures
        step@ == init_step(opt_text(*shell), install, env@),
{
    let name: &str = match shell {
        Some(name) => name.as_str(),
        None => "bash",
    };
    match shell_family(name) {
        None => {
            let mut stderr: Vec<String> = Vec::new();
            stderr.push(join2("Unsupported shell: ", name));
            stderr.push(String::from_str("Supported shells: bash, zsh, fish, powershell"));
            let outcome = Outcome { stdout: Vec::new(), stderr, code: EXIT_OK };
            assert(outcome.stdout.deep_view() =~= Seq::<LineView>::empty());
            assert(outcome.stderr.deep_view() =~= seq![
                "Unsupported shell: "@ + name@,
                "Supported shells: bash, zsh, fish, powershell"@,
            ]);
            Step::Finish(outcome)
        },
        Some(family) => if install {
            match &env.config_dir {
                Some(dir) => Step::WriteScript(
                    ConfigFile {
                        config_dir: dir.clone(),
                        app_dir: String::from_str("hop"),
                        file_name: String::from_str(script_file_name(family)),
                    },
                    family,
                    AwaitingScript {  },
                ),
                None => Step::Finish(
                    Outcome::fail(
                        String::from_str(
                            "Could not determine config directory. Remove --install or specify a valid config directory.",
                        ),
                        EXIT_OK,
                    ),
                ),
            }
        } else {
            Step::PrintScript(family)
        },
    }
}

/// The first step of the subcommand `command`, in the environment `env`.
pub fn handle_command_in(command: &Command, env: &Environment) -> (step: Step)
    ensures
        step@ == command_step(command@, env@),
{
    match command {
        Command::Add { name } => handle_add(name.as_str(), env),
        Command::List => handle_list(env),
        Command::Remove { name } => handle_remove(name.as_str(), env),
        Command::Fuzzy => handle_fuzzy(env),
        Command::Init { shell, install } => handle_init(shell, *install, env),
    }
}

/// The first step of the subcommand `command`, in the environment of this
/// process. Which directories the platform names depends on the environment:
/// the step is the first step in some environment.
pub fn handle_command(command: &Command) -> (step: Step)
    ensures
        exists|env: EnvironmentView| step@ == #[trigger] command_step(command@, env),
{
    let env = Environment::detect();
    handle_command_in(command, &env)
}

/// The first step of an invocation, in the environment `env`: that of its
/// subcommand, or, without one, that of the shortcut named.
pub fn begin_in(shortcut: &Option<String>, command: &Option<Command>, env: &Environment) -> (step:
    Step)
    ensures
        step@ == first_step(opt_text(*shortcut), opt_command(*command), env@),
{
    match command {
        Some(command) => handle_command_in(command, env),
        None => try_handle_shortcut_in(shortcut, env),
    }
}

/// The first step of an invocation, in the environment of this process.
pub fn begin(shortcut: &Option<String>, command: &Option<Command>) -> (step: Step)
    ensures
        exists|env: EnvironmentView|
            step@ == #[trigger] first_step(opt_text(*shortcut), opt_command(*command), env),
{
    let env = Environment::detect();
    begin_in(shortcut, command, &env)
}

/// The end of an invocation that was to add a name which the store holds.
fn exists_already(name: &str) -> (step: Step)
    ensures
        step@ == StepView::Finish(told("Shortcut `"@ + name@ + "` already exists"@)),
{
    Step::Finish(Outcome::tell(join3("Shortcut `", name, "` already exists")))
}

/// Going to the shortcut `name` of `store`.
fn jump(store: &Store, name: &str, home: &Option<String>) -> (step: Step)
    ensures
        step@ == jump_step(store@, name@, opt_text(*home)),
{
    match resolve(store, name, home) {
        Ok(path) => Step::Finish(Outcome::go_to(path)),
        Err(_) => Step::Finish(
            Outcome::fail(join3("Shortcut '", name, "' not found"), EXIT_FAILURE),
        ),
    }
}

/// Removing the shortcut `name` of `store`, which is kept in `file`.
fn remove(store: Store, name: &str, file: ConfigFile) -> (step: Step)
    ensures
        step@ == remove_step(store@, name@, file@),
{
    let mut store = store;
    if store.remove(name) {
        save(&store, file, Outcome::silent(EXIT_OK))
    } else {
        Step::Finish(Outcome::tell(join3("Shortcut `", name, "` does not exist")))
    }
}

/// Picking one of the shortcuts of `store` in the finder.
fn pick(store: &Store, home: Option<String>) -> (step: Step)
    ensures
        step@ == fuzzy_step(store@, opt_text(home)),
{
    match fuzzy_input(store) {
        Ok(input) => Step::RunFinder(input, AwaitingFinder { home }),
        Err(_) => Step::Finish(Outcome::fail(String::from_str("No shortcuts yet."), EXIT_OK)),
    }
}

impl AwaitingStore {
    /// The step after the store was loaded, or could not be.
    pub fn store_loaded(self, loaded: Result<Store, LoadError>) -> (step: Step)
        ensures
            step@ == loaded_step(self@, load_view(loaded)),
    {
        let store = match loaded {
            Ok(store) => store,
            Err(error) => {
                return Step::Finish(
                    Outcome::fail(
                        join2("Error loading shortcuts: ", error.cause.as_str()),
                        EXIT_FAILURE,
                    ),
                );
            },
        };
        match self.task {
            Task::Jump(name) => jump(&store, name.as_str(), &self.home),
            Task::List => Step::Finish(Outcome::show(list_shortcuts(&store))),
            Task::Add(name) => if store.contains_key(name.as_str()) {
                exists_already(name.as_str())
            } else {
                Step::QueryDirectory(
                    AwaitingDirectory { name, store, file: self.file, home: self.home },
                )
            },
            Task::Remove(name) => remove(store, name.as_str(), self.file),
            Task::Fuzzy => pick(&store, self.home),
        }
    }

    /// The step after the store's file was read: the store is loaded from what
    /// was found, and the task is carried on with it. Where the CSV reader
    /// fails on the contents, the load fails with what the reader reports.
    pub fn store_read(self, file: StoreFile) -> (step: Step)
        ensures
            exists|loaded: Result<Map<Seq<char>, Seq<char>>, Seq<char>>| #[trigger]
                is_load_of(file@, loaded) && step@ == loaded_step(self@, loaded),
    {
        let loaded = load_shortcuts(file);
        self.store_loaded(loaded)
    }
}

impl AwaitingDirectory {
    /// The step after the current directory is known. `None` stands for a
    /// current directory that is no directory.
    pub fn directory(self, dir: Option<String>) -> (step: Step)
        ensures
            step@ == directory_step(self@, opt_text(dir)),
    {
        if self.store.contains_key(self.name.as_str()) {
            return exists_already(self.name.as_str());
        }
        match dir {
            Some(dir) => {
                let path = normalize_with_home(dir.as_str(), &self.home);
                let mut line: Vec<Span> = Vec::new();
                line.push(Span { text: String::from_str("Added: "), style: Style::Plain });
                line.push(Span { text: self.name.clone(), style: Style::Name });
                line.push(Span { text: String::from_str(" -> "), style: Style::Plain });
                line.push(Span { text: path.clone(), style: Style::Path });
                assert(line.deep_view() =~= added_line(self.name@, path@));
                let mut lines: Vec<Vec<Span>> = Vec::new();
                lines.push(line);
                assert(lines.deep_view() =~= seq![added_line(self.name@, path@)]);
                let mut store = self.store;
                store.set(self.name, path);
                save(&store, self.file, Outcome::show(lines))
            },
            None => Step::Finish(
                Outcome::fail(String::from_str("Current directory is not valid"), EXIT_OK),
            ),
        }
    }
}

impl AwaitingSave {
    /// The step after the store's file was written, or could not be, with the
    /// cause.
    pub fn saved(self, result: Result<(), String>) -> (step: Step)
        ensures
            step@ == saved_step(self.done@, write_view(result)),
    {
        match result {
            Ok(_) => Step::Finish(self.done),
            Err(cause) => Step::Finish(
                Outcome::fail(join2("Could not save shortcuts: ", cause.as_str()), EXIT_FAILURE),
            ),
        }
    }
}

impl AwaitingFinder {
    /// The step after the finder ended.
    pub fn finder_done(self, report: FinderReport) -> (step: Step)
        ensures
            step@ == finder_step(opt_text(self.home), report@),
    {
        match report {
            FinderReport::Ended(result) => match fuzzy_result(&result, &self.home) {
                Ok(path) => Step::Finish(Outcome::go_to(path)),
                Err(SelectError::Cancelled) => Step::Finish(Outcome::silent(EXIT_OK)),
                Err(SelectError::FinderUnavailable) => Step::Finish(
                    Outcome::fail(
                        String::from_str("Failed to start `fzf`. Check if it is installed."),
                        EXIT_FAILURE,
                    ),
                ),
                Err(_) => Step::Finish(
                    Outcome::fail(String::from_str("Failed to parse selection"), EXIT_FAILURE),
                ),
            },
            FinderReport::WriteFailed(cause) => Step::Finish(
                Outcome::fail(join2("Failed to write to `fzf`: ", cause.as_str()), EXIT_OK),
            ),
            FinderReport::WaitFailed(cause) => Step::Finish(
                Outcome::fail(join2("Failed to wait for `fzf`: ", cause.as_str()), EXIT_FAILURE),
            ),
        }
    }
}

impl AwaitingScript {
    /// The step after an initialization script was written, or could not be.
    pub fn script_written(self, result: ScriptWrite) -> (step: Step)
        ensures
            step@ == script_step(result@),
    {
        match result {
            ScriptWrite::Written(path) => Step::Finish(
                Outcome::tell(join2("Wrote initialization script to ", path.as_str())),
            ),
            ScriptWrite::DirectoryFailed { dir, cause } => Step::Finish(
                Outcome::fail(
                    join2("Failed to create directory ", dir.as_str()).concat(": ").concat(
                        cause.as_str(),
                    ),
                    EXIT_OK,
                ),
            ),
            ScriptWrite::WriteFailed(cause) => Step::Finish(
                Outcome::fail(join2("Failed to write init script: ", cause.as_str()), EXIT_OK),
            ),
        }
    }
}

} // verus!
