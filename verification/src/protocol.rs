//! Which step follows which: the rules of every command, stated over the
//! models of the steps, and what follows from the rules.

use vstd::prelude::*;
use crate::listing::list_lines;
use crate::output::{
    complained, failed, shown, silent, told, went_to, LineView, OutcomeView, Style, EXIT_CD,
    EXIT_FAILURE, EXIT_OK,
};
use crate::persist::encoded;
use crate::platform::{app_dir_name, store_file, ConfigFileView, EnvironmentView};
use crate::portable::{expanded, lemma_expand_normalize_inside_home, normalized};
use crate::select::{finder_input, picked, resolved, selected_path, FinderResultView, SelectError};
use crate::shell::{default_shell, family_of, script_name, ShellFamily};
use crate::step::{
    AwaitingDirectoryView, AwaitingStoreView, CommandView, FinderReportView, ScriptWriteView,
    StepView, TaskView,
};
use crate::store::lemma_entries_for_empty;

verus! {

/// The step that fetches the store for `task`: reading its file, or giving up
/// where there is no configuration directory.
pub open spec fn with_store(task: TaskView, env: EnvironmentView) -> StepView {
    match env.config_dir {
        Some(dir) => StepView::ReadStore(
            AwaitingStoreView { task, file: store_file(dir), home: env.home },
        ),
        None => StepView::NoConfigDir,
    }
}

/// The first step of an invocation without a subcommand: going to the
/// shortcut that is named, or listing the shortcuts where none is named.
pub open spec fn shortcut_step(shortcut: Option<Seq<char>>, env: EnvironmentView) -> StepView {
    match shortcut {
        Some(name) => with_store(TaskView::Jump(name), env),
        None => with_store(TaskView::List, env),
    }
}

/// The first step of adding a shortcut: an empty name is refused before
/// anything is read.
pub open spec fn add_step(name: Seq<char>, env: EnvironmentView) -> StepView {
    if name.len() == 0 {
        StepView::Finish(failed("Shortcut name cannot be empty"@, EXIT_OK as int))
    } else {
        with_store(TaskView::Add(name), env)
    }
}

/// The file that the script of `family` is installed as, below `config_dir`.
pub open spec fn script_file(config_dir: Seq<char>, family: ShellFamily) -> ConfigFileView {
    ConfigFileView { config_dir, app_dir: app_dir_name(), file_name: script_name(family) }
}

/// The first step of `init`: the script of the shell's family is printed, or
/// installed below the configuration directory.
pub open spec fn init_step(
    shell: Option<Seq<char>>,
    install: bool,
    env: EnvironmentView,
) -> StepView {
    let name = match shell {
        Some(name) => name,
        None => default_shell(),
    };
    match family_of(name) {
        None => StepView::Finish(
            complained(
                seq![
                    "Unsupported shell: "@ + name,
                    "Supported shells: bash, zsh, fish, powershell"@,
                ],
                EXIT_OK as int,
            ),
        ),
        Some(family) => if install {
            match env.config_dir {
                Some(dir) => StepView::WriteScript(script_file(dir, family), family),
                None => StepView::Finish(
                    failed(
                        "Could not determine config directory. Remove --install or specify a valid config directory."@,
                        EXIT_OK as int,
                    ),
                ),
            }
        } else {
            StepView::PrintScript(family)
        },
    }
}

/// The first step of a subcommand.
pub open spec fn command_step(command: CommandView, env: EnvironmentView) -> StepView {
    match command {
        CommandView::Add { name } => add_step(name, env),
        CommandView::List => with_store(TaskView::List, env),
        CommandView::Remove { name } => with_store(TaskView::Remove(name), env),
        CommandView::Fuzzy => with_store(TaskView::Fuzzy, env),
        CommandView::Init { shell, install } => init_step(shell, install, env),
    }
}

/// The first step of an invocation: that of its subcommand, or, without one,
/// that of the shortcut named.
pub open spec fn first_step(
    shortcut: Option<Seq<char>>,
    command: Option<CommandView>,
    env: EnvironmentView,
) -> StepView {
    match command {
        Some(command) => command_step(command, env),
        None => shortcut_step(shortcut, env),
    }
}

/// The step that saves `store` to `file`: writing the file, with `done` to be
/// reported afterwards, or reporting that the store cannot be written.
pub open spec fn save_step(
    store: Map<Seq<char>, Seq<char>>,
    file: ConfigFileView,
    done: OutcomeView,
) -> StepView {
    match encoded(store) {
        Ok(bytes) => StepView::WriteStore(file, bytes, done),
        Err(cause) => StepView::Finish(
            failed("Could not save shortcuts: "@ + cause, EXIT_FAILURE as int),
        ),
    }
}

/// Going to the shortcut `name`: its absolute path is printed with the exit
/// code that makes the shell change to it, or the miss is reported.
pub open spec fn jump_step(
    store: Map<Seq<char>, Seq<char>>,
    name: Seq<char>,
    home: Option<Seq<char>>,
) -> StepView {
    match resolved(store, name, home) {
        Ok(path) => StepView::Finish(went_to(path)),
        Err(_) => StepView::Finish(
            failed("Shortcut '"@ + name + "' not found"@, EXIT_FAILURE as int),
        ),
    }
}

/// Removing the shortcut `name`: where there is none the store is not written.
pub open spec fn remove_step(
    store: Map<Seq<char>, Seq<char>>,
    name: Seq<char>,
    file: ConfigFileView,
) -> StepView {
    if store.contains_key(name) {
        save_step(store.remove(name), file, silent(EXIT_OK as int))
    } else {
        StepView::Finish(told("Shortcut `"@ + name + "` does not exist"@))
    }
}

/// Picking in the finder: where there is no shortcut the finder is not run.
pub open spec fn fuzzy_step(
    store: Map<Seq<char>, Seq<char>>,
    home: Option<Seq<char>>,
) -> StepView {
    match finder_input(store) {
        Ok(input) => StepView::RunFinder(input, home),
        Err(_) => StepView::Finish(failed("No shortcuts yet."@, EXIT_OK as int)),
    }
}

/// The step after the store was loaded, or could not be.
pub open spec fn loaded_step(
    state: AwaitingStoreView,
    loaded: Result<Map<Seq<char>, Seq<char>>, Seq<char>>,
) -> StepView {
    match loaded {
        Err(cause) => StepView::Finish(
            failed("Error loading shortcuts: "@ + cause, EXIT_FAILURE as int),
        ),
        Ok(store) => match state.task {
            TaskView::Jump(name) => jump_step(store, name, state.home),
            TaskView::List => StepView::Finish(shown(list_lines(store))),
            TaskView::Add(name) => if store.contains_key(name) {
                StepView::Finish(told("Shortcut `"@ + name + "` already exists"@))
            } else {
                StepView::QueryDirectory(
                    AwaitingDirectoryView { name, store, file: state.file, home: state.home },
                )
            },
            TaskView::Remove(name) => remove_step(store, name, state.file),
            TaskView::Fuzzy => fuzzy_step(store, state.home),
        },
    }
}

/// What is reported of a shortcut that was added.
pub open spec fn added_line(name: Seq<char>, path: Seq<char>) -> LineView {
    seq![
        ("Added: "@, Style::Plain),
        (name, Style::Name),
        (" -> "@, Style::Plain),
        (path, Style::Path),
    ]
}

/// The step after the current directory is known: the shortcut is added with
/// the portable form of the directory, and the store is saved. `None` stands
/// for a current directory that is no directory. A name that the store holds
/// is refused here as well: no path is ever replaced.
pub open spec fn directory_step(state: AwaitingDirectoryView, dir: Option<Seq<char>>) -> StepView {
    if state.store.contains_key(state.name) {
        StepView::Finish(told("Shortcut `"@ + state.name + "` already exists"@))
    } else {
        match dir {
            Some(dir) => {
                let path = normalized(dir, state.home);
                save_step(
                    state.store.insert(state.name, path),
                    state.file,
                    shown(seq![added_line(state.name, path)]),
                )
            },
            None => StepView::Finish(failed("Current directory is not valid"@, EXIT_OK as int)),
        }
    }
}

/// The step after the store's file was written, or could not be: a failure is
/// never passed over.
pub open spec fn saved_step(done: OutcomeView, result: Result<(), Seq<char>>) -> StepView {
    match result {
        Ok(_) => StepView::Finish(done),
        Err(cause) => StepView::Finish(
            failed("Could not save shortcuts: "@ + cause, EXIT_FAILURE as int),
        ),
    }
}

/// The step after the finder ended: only a line that was picked and holds the
/// separator leads to a path and to the exit code that goes with it.
pub open spec fn finder_step(home: Option<Seq<char>>, report: FinderReportView) -> StepView {
    match report {
        FinderReportView::Ended(result) => match picked(result, home) {
            Ok(path) => StepView::Finish(went_to(path)),
            Err(SelectError::Cancelled) => StepView::Finish(silent(EXIT_OK as int)),
            Err(SelectError::FinderUnavailable) => StepView::Finish(
                failed("Failed to start `fzf`. Check if it is installed."@, EXIT_FAILURE as int),
            ),
            Err(_) => StepView::Finish(failed("Failed to parse selection"@, EXIT_FAILURE as int)),
        },
        FinderReportView::WriteFailed(cause) => StepView::Finish(
            failed("Failed to write to `fzf`: "@ + cause, EXIT_OK as int),
        ),
        FinderReportView::WaitFailed(cause) => StepView::Finish(
            failed("Failed to wait for `fzf`: "@ + cause, EXIT_FAILURE as int),
        ),
    }
}

/// The step after an initialization script was written, or could not be.
pub open spec fn script_step(result: ScriptWriteView) -> StepView {
    match result {
        ScriptWriteView::Written(path) => StepView::Finish(
            told("Wrote initialization script to "@ + path),
        ),
        ScriptWriteView::DirectoryFailed { dir, cause } => StepView::Finish(
            failed("Failed to create directory "@ + dir + ": "@ + cause, EXIT_OK as int),
        ),
        ScriptWriteView::WriteFailed(cause) => StepView::Finish(
            failed("Failed to write init script: "@ + cause, EXIT_OK as int),
        ),
    }
}

/// Removing a name that the store does not hold ends the invocation without
/// writing the store: the file stays as it is.
pub proof fn lemma_remove_absent_writes_nothing(
    store: Map<Seq<char>, Seq<char>>,
    name: Seq<char>,
    file: ConfigFileView,
)
    requires
        !store.contains_key(name),
    ensures
        remove_step(store, name, file) is Finish,
        store.remove(name) == store,
{
}

/// Adding a name that the store holds ends the invocation without asking for
/// the directory and without writing the store: the path stored under the
/// name stays as it is.
pub proof fn lemma_add_existing_writes_nothing(
    state: AwaitingStoreView,
    store: Map<Seq<char>, Seq<char>>,
    name: Seq<char>,
)
    requires
        state.task == TaskView::Add(name),
        store.contains_key(name),
    ensures
        loaded_step(
            state,
            Ok(store),
        ) is Finish,
{
}

/// The store was loaded and holds the name that was asked for.
pub open spec fn finds_shortcut(
    state: AwaitingStoreView,
    loaded: Result<Map<Seq<char>, Seq<char>>, Seq<char>>,
) -> bool {
    match (state.task, loaded) {
        (TaskView::Jump(name), Ok(store)) => store.contains_key(name),
        _ => false,
    }
}

/// After the store is loaded, the exit code that makes the shell change
/// directory is given exactly where a shortcut was asked for by name and the
/// store holds that name, and then the one line printed is the expanded path
/// stored under the name.
pub proof fn lemma_loaded_exit_code(
    state: AwaitingStoreView,
    loaded: Result<Map<Seq<char>, Seq<char>>, Seq<char>>,
)
    ensures
        (loaded_step(state, loaded) matches StepView::Finish(outcome) && outcome.code == EXIT_CD)
            <==> finds_shortcut(state, loaded),
        finds_shortcut(state, loaded) ==> loaded_step(state, loaded) == StepView::Finish(
            went_to(expanded(loaded->Ok_0[state.task->Jump_0], state.home)),
        ),
{
}

/// The finder ended successfully and its output holds the separator.
pub open spec fn picks_path(report: FinderReportView) -> bool {
    match report {
        FinderReportView::Ended(FinderResultView::Selected(output)) => selected_path(
            output,
        ) is Some,
        _ => false,
    }
}

/// After the finder ended, a path is printed, with the exit code that makes
/// the shell change directory, exactly where the finder ended successfully
/// and its output holds the separator. In every other case (the user left the
/// finder, it could not be started, its output is no line of the kind it was
/// given, or the run failed) nothing is printed on standard output.
pub proof fn lemma_finder_exit_code(home: Option<Seq<char>>, report: FinderReportView)
    ensures
        finder_step(home, report) is Finish,
        finder_step(home, report)->Finish_0.code == EXIT_CD <==> picks_path(report),
        !picks_path(report) ==> finder_step(home, report)->Finish_0.stdout.len() == 0,
        picks_path(report) ==> finder_step(home, report) == StepView::Finish(
            went_to(expanded(selected_path(report->Ended_0->Selected_0)->0, home)),
        ),
{
}

/// Adding a name that the store holds never leads to a write, at whichever
/// step the name is found in the store.
pub proof fn lemma_add_never_replaces(state: AwaitingDirectoryView, dir: Option<Seq<char>>)
    requires
        state.store.contains_key(state.name),
    ensures
        directory_step(state, dir) is Finish,
{
}

/// What an outcome has to be like for the calling shell: the exit code is one
/// of the three; with the code that makes the shell change directory, one line
/// is printed on standard output, the path, and nothing else anywhere; with
/// the code for failure, nothing is printed on standard output.
pub open spec fn orderly(outcome: OutcomeView) -> bool {
    &&& outcome.code == EXIT_OK || outcome.code == EXIT_FAILURE || outcome.code == EXIT_CD
    &&& outcome.code == EXIT_CD ==> outcome.stdout.len() == 1 && outcome.stdout[0].len() == 1
        && outcome.stderr.len() == 0
    &&& outcome.code == EXIT_FAILURE ==> outcome.stdout.len() == 0
}

/// A step keeps to the rules of the shell: what it prints at the end is
/// orderly, and what is to be reported once the store is written is orderly
/// and no change of directory.
pub open spec fn keeps_rules(step: StepView) -> bool {
    match step {
        StepView::Finish(outcome) => orderly(outcome),
        StepView::WriteStore(_, _, done) => orderly(done) && done.code != EXIT_CD,
        _ => true,
    }
}

/// `next` can follow `step`: it is the step that the state of `step` takes on
/// some answer of the world.
pub open spec fn follows(step: StepView, next: StepView) -> bool {
    match step {
        StepView::ReadStore(state) => exists|
            loaded: Result<Map<Seq<char>, Seq<char>>, Seq<char>>,
        |
            next == #[trigger] loaded_step(state, loaded),
        StepView::QueryDirectory(state) => exists|dir: Option<Seq<char>>|
            next == #[trigger] directory_step(state, dir),
        StepView::WriteStore(_, _, done) => exists|result: Result<(), Seq<char>>|
            next == #[trigger] saved_step(done, result),
        StepView::RunFinder(_, home) => exists|report: FinderReportView|
            next == #[trigger] finder_step(home, report),
        StepView::WriteScript(_, _) => exists|result: ScriptWriteView|
            next == #[trigger] script_step(result),
        _ => false,
    }
}

/// The first step of every invocation keeps to the rules of the shell.
pub proof fn lemma_first_step_keeps_rules(
    shortcut: Option<Seq<char>>,
    command: Option<CommandView>,
    env: EnvironmentView,
)
    ensures
        keeps_rules(first_step(shortcut, command, env)),
{
}

/// A step that follows one that keeps to the rules of the shell keeps to them
/// too: whatever the world answers, no invocation ends with the code for a
/// change of directory without printing just the path, nor with the code for
/// failure and something on standard output.
pub proof fn lemma_next_step_keeps_rules(step: StepView, next: StepView)
    requires
        keeps_rules(step),
        follows(step, next),
    ensures
        keeps_rules(next),
{
}

/// With no shortcut in the store the finder is not run, and nothing is printed
/// on standard output.
pub proof fn lemma_fuzzy_empty(home: Option<Seq<char>>)
    ensures
        fuzzy_step(Map::empty(), home) == StepView::Finish(
            failed("No shortcuts yet."@, EXIT_OK as int),
        ),
{
    lemma_entries_for_empty();
}

/// A shortcut that was added from a directory inside the home directory leads
/// back to that directory when it is asked for by its name.
pub proof fn lemma_added_shortcut_resolves(
    store: Map<Seq<char>, Seq<char>>,
    name: Seq<char>,
    home: Seq<char>,
    rest: Seq<char>,
)
    ensures
        resolved(
            store.insert(name, normalized(home + seq!['/'] + rest, Some(home))),
            name,
            Some(home),
        ) == Ok::<Seq<char>, SelectError>(home + seq!['/'] + rest),
{
    lemma_expand_normalize_inside_home(home, rest);
}

} // verus!
