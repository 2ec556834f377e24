use hop::output::{plain, text_of_line, Outcome, Span, Style};
use hop::persist::{load_shortcuts, LoadError, StoreFile};
use hop::platform::{store_file_in, ConfigFile, Environment};
use hop::select::FinderResult;
use hop::session::{
    begin, begin_in, handle_add, handle_command, handle_command_in, handle_fuzzy, handle_init,
    handle_list, handle_remove, try_handle_shortcut, try_handle_shortcut_in,
};
use hop::shell::ShellFamily;
use hop::step::{
    AwaitingDirectory, AwaitingFinder, AwaitingSave, AwaitingScript, AwaitingStore, Command,
    FinderReport, ScriptWrite, Step, Task,
};
use hop::store::Store;

fn session_env() -> Environment {
    Environment {
        home: Some(String::from("/home/alice")),
        config_dir: Some(String::from("/home/alice/.config")),
    }
}

fn session_file() -> ConfigFile {
    store_file_in(String::from("/home/alice/.config"))
}

fn session_store(entries: &[(&str, &str)]) -> Store {
    let mut store = Store::new();
    for (name, path) in entries {
        store.set(String::from(*name), String::from(*path));
    }
    store
}

fn session_waiting(task: Task) -> AwaitingStore {
    AwaitingStore { task, file: session_file(), home: Some(String::from("/home/alice")) }
}

fn session_finish(step: Step) -> Outcome {
    match step {
        Step::Finish(outcome) => outcome,
        other => panic!("not finished: {:?}", other),
    }
}

fn session_error(text: &str, code: i32) -> Outcome {
    Outcome { stdout: Vec::new(), stderr: vec![String::from(text)], code }
}

fn session_told(text: &str) -> Outcome {
    Outcome { stdout: vec![plain(String::from(text))], stderr: Vec::new(), code: 0 }
}

fn session_path(path: &str) -> Outcome {
    Outcome { stdout: vec![plain(String::from(path))], stderr: Vec::new(), code: 42 }
}

#[test]
fn every_task_on_the_store_starts_by_reading_it() {
    let env = session_env();
    assert_eq!(handle_list(&env), Step::ReadStore(session_waiting(Task::List)));
    assert_eq!(handle_fuzzy(&env), Step::ReadStore(session_waiting(Task::Fuzzy)));
    assert_eq!(
        handle_remove("proj", &env),
        Step::ReadStore(session_waiting(Task::Remove(String::from("proj"))))
    );
    assert_eq!(
        handle_add("proj", &env),
        Step::ReadStore(session_waiting(Task::Add(String::from("proj"))))
    );
    assert_eq!(
        try_handle_shortcut_in(&Some(String::from("proj")), &env),
        Step::ReadStore(session_waiting(Task::Jump(String::from("proj"))))
    );
}

#[test]
fn without_a_shortcut_the_shortcuts_are_listed() {
    assert_eq!(
        try_handle_shortcut_in(&None, &session_env()),
        Step::ReadStore(session_waiting(Task::List))
    );
}

#[test]
fn without_a_configuration_directory_nothing_on_the_store_can_be_done() {
    let env = Environment { home: Some(String::from("/home/alice")), config_dir: None };
    assert_eq!(handle_list(&env), Step::NoConfigDir);
    assert_eq!(handle_fuzzy(&env), Step::NoConfigDir);
    assert_eq!(handle_remove("proj", &env), Step::NoConfigDir);
    assert_eq!(handle_add("proj", &env), Step::NoConfigDir);
    assert_eq!(try_handle_shortcut_in(&Some(String::from("proj")), &env), Step::NoConfigDir);
    assert_eq!(try_handle_shortcut_in(&None, &env), Step::NoConfigDir);
}

#[test]
fn an_empty_name_is_refused_before_anything_is_read() {
    let expected = Step::Finish(session_error("Shortcut name cannot be empty", 0));
    assert_eq!(handle_add("", &session_env()), expected);
    let nowhere = Environment { home: None, config_dir: None };
    assert_eq!(handle_add("", &nowhere), expected);
    assert_eq!(handle_command(&Command::Add { name: String::new() }), expected);
}

#[test]
fn a_command_is_handled_by_its_handler() {
    let env = session_env();
    assert_eq!(handle_command_in(&Command::List, &env), handle_list(&env));
    assert_eq!(handle_command_in(&Command::Fuzzy, &env), handle_fuzzy(&env));
    assert_eq!(
        handle_command_in(&Command::Add { name: String::from("proj") }, &env),
        handle_add("proj", &env)
    );
    assert_eq!(
        handle_command_in(&Command::Remove { name: String::from("proj") }, &env),
        handle_remove("proj", &env)
    );
    assert_eq!(
        handle_command_in(
            &Command::Init { shell: Some(String::from("fish")), install: true },
            &env
        ),
        handle_init(&Some(String::from("fish")), true, &env)
    );
}

#[test]
fn a_subcommand_goes_before_a_shortcut() {
    let env = session_env();
    let shortcut = Some(String::from("proj"));
    assert_eq!(begin_in(&shortcut, &Some(Command::List), &env), handle_list(&env));
    assert_eq!(begin_in(&shortcut, &None, &env), try_handle_shortcut_in(&shortcut, &env));
    assert_eq!(begin_in(&None, &None, &env), handle_list(&env));
}

#[test]
fn the_handlers_of_this_process_use_its_environment() {
    let env = Environment::detect();
    assert_eq!(handle_command(&Command::List), handle_command_in(&Command::List, &env));
    let shortcut = Some(String::from("proj"));
    assert_eq!(try_handle_shortcut(&shortcut), try_handle_shortcut_in(&shortcut, &env));
    assert_eq!(begin(&None, &Some(Command::Fuzzy)), begin_in(&None, &Some(Command::Fuzzy), &env));
}

#[test]
fn init_prints_the_script_of_the_family() {
    let env = session_env();
    assert_eq!(handle_init(&None, false, &env), Step::PrintScript(ShellFamily::Posix));
    assert_eq!(
        handle_init(&Some(String::from("zsh")), false, &env),
        Step::PrintScript(ShellFamily::Posix)
    );
    assert_eq!(
        handle_init(&Some(String::from("fish")), false, &env),
        Step::PrintScript(ShellFamily::Fish)
    );
    assert_eq!(
        handle_init(&Some(String::from("pwsh")), false, &env),
        Step::PrintScript(ShellFamily::PowerShell)
    );
    let nowhere = Environment { home: None, config_dir: None };
    assert_eq!(handle_init(&None, false, &nowhere), Step::PrintScript(ShellFamily::Posix));
}

#[test]
fn init_reports_a_shell_without_a_script() {
    let expected = Step::Finish(Outcome {
        stdout: Vec::new(),
        stderr: vec![
            String::from("Unsupported shell: tcsh"),
            String::from("Supported shells: bash, zsh, fish, powershell"),
        ],
        code: 0,
    });
    assert_eq!(handle_init(&Some(String::from("tcsh")), false, &session_env()), expected);
    assert_eq!(handle_init(&Some(String::from("tcsh")), true, &session_env()), expected);
}

#[test]
fn init_installs_the_script_below_the_configuration_directory() {
    let env = session_env();
    let file = |name: &str| ConfigFile {
        config_dir: String::from("/home/alice/.config"),
        app_dir: String::from("hop"),
        file_name: String::from(name),
    };
    assert_eq!(
        handle_init(&None, true, &env),
        Step::WriteScript(file("hop.sh"), ShellFamily::Posix, AwaitingScript {})
    );
    assert_eq!(
        handle_init(&Some(String::from("fish")), true, &env),
        Step::WriteScript(file("hop.fish"), ShellFamily::Fish, AwaitingScript {})
    );
    assert_eq!(
        handle_init(&Some(String::from("ps1")), true, &env),
        Step::WriteScript(file("hop.ps1"), ShellFamily::PowerShell, AwaitingScript {})
    );
}

#[test]
fn init_cannot_install_without_a_configuration_directory() {
    let nowhere = Environment { home: Some(String::from("/home/alice")), config_dir: None };
    assert_eq!(
        handle_init(&None, true, &nowhere),
        Step::Finish(session_error(
            "Could not determine config directory. Remove --install or specify a valid config directory.",
            0
        ))
    );
}

#[test]
fn the_result_of_installing_a_script_is_reported() {
    assert_eq!(
        AwaitingScript {}.script_written(ScriptWrite::Written(String::from(
            "/home/alice/.config/hop/hop.sh"
        ))),
        Step::Finish(session_told(
            "Wrote initialization script to /home/alice/.config/hop/hop.sh"
        ))
    );
    assert_eq!(
        AwaitingScript {}.script_written(ScriptWrite::DirectoryFailed {
            dir: String::from("/home/alice/.config/hop"),
            cause: String::from("Permission denied"),
        }),
        Step::Finish(session_error(
            "Failed to create directory /home/alice/.config/hop: Permission denied",
            0
        ))
    );
    assert_eq!(
        AwaitingScript {}.script_written(ScriptWrite::WriteFailed(String::from("disk full"))),
        Step::Finish(session_error("Failed to write init script: disk full", 0))
    );
}

#[test]
fn a_store_that_cannot_be_loaded_ends_the_invocation_with_a_failure() {
    for task in [
        Task::Jump(String::from("proj")),
        Task::List,
        Task::Add(String::from("proj")),
        Task::Remove(String::from("proj")),
        Task::Fuzzy,
    ] {
        let step = session_waiting(task)
            .store_loaded(Err(LoadError { cause: String::from("bad row") }));
        assert_eq!(step, Step::Finish(session_error("Error loading shortcuts: bad row", 1)));
    }
}

#[test]
fn a_malformed_file_is_reported_and_not_replaced() {
    let step = session_waiting(Task::Remove(String::from("proj")))
        .store_read(StoreFile::Contents(b"proj\n".to_vec()));
    assert_eq!(
        step,
        Step::Finish(session_error("Error loading shortcuts: row 1: found 1 of 2 fields", 1))
    );
    let step = session_waiting(Task::List)
        .store_read(StoreFile::Unreadable(String::from("Permission denied")));
    assert_eq!(step, Step::Finish(session_error("Error loading shortcuts: Permission denied", 1)));
    let outcome = session_finish(
        session_waiting(Task::List).store_read(StoreFile::Contents(b"a,b\nc\n".to_vec())),
    );
    assert_eq!(outcome.code, 1);
    assert!(outcome.stdout.is_empty());
    assert_eq!(outcome.stderr.len(), 1);
    assert!(outcome.stderr[0].starts_with("Error loading shortcuts: "));
    assert!(outcome.stderr[0].len() > "Error loading shortcuts: ".len());
}

#[test]
fn a_shortcut_is_resolved_to_its_path_with_the_code_for_cd() {
    let store = session_store(&[("proj", "~/code/proj"), ("www", "/srv/www")]);
    let step = session_waiting(Task::Jump(String::from("proj"))).store_loaded(Ok(store));
    assert_eq!(step, Step::Finish(session_path("/home/alice/code/proj")));
}

#[test]
fn a_missing_shortcut_is_reported_without_a_path() {
    let store = session_store(&[("proj", "~/code/proj")]);
    let step = session_waiting(Task::Jump(String::from("pro"))).store_loaded(Ok(store));
    assert_eq!(step, Step::Finish(session_error("Shortcut 'pro' not found", 1)));
    let step = session_waiting(Task::Jump(String::from("proj"))).store_read(StoreFile::Missing);
    assert_eq!(step, Step::Finish(session_error("Shortcut 'proj' not found", 1)));
}

#[test]
fn the_shortcuts_are_listed_on_standard_output() {
    let store = session_store(&[("work", "/srv/work"), ("p", "~/code/proj")]);
    let outcome = session_finish(session_waiting(Task::List).store_loaded(Ok(store)));
    assert_eq!(outcome.code, 0);
    assert!(outcome.stderr.is_empty());
    let texts: Vec<String> = outcome.stdout.iter().map(text_of_line).collect();
    assert_eq!(texts, vec!["p    -> ~/code/proj", "work -> /srv/work"]);
    let outcome = session_finish(session_waiting(Task::List).store_read(StoreFile::Missing));
    assert_eq!(outcome, session_told("No shortcuts yet. Use `hop add <name>` to add one."));
}

#[test]
fn adding_a_name_that_exists_changes_nothing() {
    let store = session_store(&[("proj", "~/code/proj")]);
    let step = session_waiting(Task::Add(String::from("proj"))).store_loaded(Ok(store));
    assert_eq!(step, Step::Finish(session_told("Shortcut `proj` already exists")));
}

#[test]
fn adding_a_new_name_asks_for_the_current_directory() {
    let store = session_store(&[("proj", "~/code/proj")]);
    let step = session_waiting(Task::Add(String::from("work"))).store_loaded(Ok(store));
    assert_eq!(
        step,
        Step::QueryDirectory(AwaitingDirectory {
            name: String::from("work"),
            store: session_store(&[("proj", "~/code/proj")]),
            file: session_file(),
            home: Some(String::from("/home/alice")),
        })
    );
}

#[test]
fn a_current_directory_that_is_no_directory_is_refused() {
    let state = AwaitingDirectory {
        name: String::from("work"),
        store: Store::new(),
        file: session_file(),
        home: Some(String::from("/home/alice")),
    };
    assert_eq!(
        state.directory(None),
        Step::Finish(session_error("Current directory is not valid", 0))
    );
}

#[test]
fn a_name_that_exists_is_never_replaced() {
    let state = AwaitingDirectory {
        name: String::from("proj"),
        store: session_store(&[("proj", "~/code/proj")]),
        file: session_file(),
        home: Some(String::from("/home/alice")),
    };
    assert_eq!(
        state.directory(Some(String::from("/srv/other"))),
        Step::Finish(session_told("Shortcut `proj` already exists"))
    );
}

#[test]
fn the_new_shortcut_is_saved_with_the_portable_path() {
    let state = AwaitingDirectory {
        name: String::from("api"),
        store: session_store(&[("proj", "~/code/proj"), ("www", "/srv/www")]),
        file: session_file(),
        home: Some(String::from("/home/alice")),
    };
    let step = state.directory(Some(String::from("/home/alice/work/api")));
    let added = vec![
        Span { text: String::from("Added: "), style: Style::Plain },
        Span { text: String::from("api"), style: Style::Name },
        Span { text: String::from(" -> "), style: Style::Plain },
        Span { text: String::from("~/work/api"), style: Style::Path },
    ];
    assert_eq!(
        step,
        Step::WriteStore(
            session_file(),
            b"api,~/work/api\nproj,~/code/proj\nwww,/srv/www\n".to_vec(),
            AwaitingSave { done: Outcome { stdout: vec![added], stderr: Vec::new(), code: 0 } },
        )
    );
}

#[test]
fn a_directory_outside_home_is_saved_as_it_is() {
    let state = AwaitingDirectory {
        name: String::from("www"),
        store: Store::new(),
        file: session_file(),
        home: Some(String::from("/home/alice")),
    };
    match state.directory(Some(String::from("/srv/www"))) {
        Step::WriteStore(_, bytes, _) => assert_eq!(bytes, b"www,/srv/www\n".to_vec()),
        other => panic!("not saved: {:?}", other),
    }
}

#[test]
fn what_was_done_is_reported_once_the_file_is_written() {
    let done = session_told("done");
    assert_eq!(AwaitingSave { done }.saved(Ok(())), Step::Finish(session_told("done")));
}

#[test]
fn a_failed_save_is_never_passed_over() {
    let done = session_told("done");
    assert_eq!(
        AwaitingSave { done }.saved(Err(String::from("Read-only file system (os error 30)"))),
        Step::Finish(session_error(
            "Could not save shortcuts: Read-only file system (os error 30)",
            1
        ))
    );
}

#[test]
fn removing_an_absent_name_writes_nothing() {
    let store = session_store(&[("proj", "~/code/proj")]);
    let step = session_waiting(Task::Remove(String::from("work"))).store_loaded(Ok(store));
    assert_eq!(step, Step::Finish(session_told("Shortcut `work` does not exist")));
    let step = session_waiting(Task::Remove(String::from("work"))).store_read(StoreFile::Missing);
    assert_eq!(step, Step::Finish(session_told("Shortcut `work` does not exist")));
}

#[test]
fn removing_a_shortcut_saves_the_rest() {
    let store = session_store(&[("proj", "~/code/proj"), ("www", "/srv/www")]);
    let step = session_waiting(Task::Remove(String::from("proj"))).store_loaded(Ok(store));
    assert_eq!(
        step,
        Step::WriteStore(
            session_file(),
            b"www,/srv/www\n".to_vec(),
            AwaitingSave { done: Outcome { stdout: Vec::new(), stderr: Vec::new(), code: 0 } },
        )
    );
}

#[test]
fn picking_from_an_empty_store_does_not_run_the_finder() {
    let step = session_waiting(Task::Fuzzy).store_loaded(Ok(Store::new()));
    assert_eq!(step, Step::Finish(session_error("No shortcuts yet.", 0)));
}

#[test]
fn picking_hands_the_lines_to_the_finder() {
    let store = session_store(&[("work", "/srv/work"), ("proj", "~/code/proj")]);
    let step = session_waiting(Task::Fuzzy).store_loaded(Ok(store));
    assert_eq!(
        step,
        Step::RunFinder(
            String::from("1. proj -> ~/code/proj\n2. work -> /srv/work"),
            AwaitingFinder { home: Some(String::from("/home/alice")) },
        )
    );
}

#[test]
fn the_picked_line_is_resolved_with_the_code_for_cd() {
    let state = AwaitingFinder { home: Some(String::from("/home/alice")) };
    let report =
        FinderReport::Ended(FinderResult::Selected(String::from("3. proj -> ~/code/proj\n")));
    assert_eq!(state.finder_done(report), Step::Finish(session_path("/home/alice/code/proj")));
}

#[test]
fn leaving_the_finder_is_silent() {
    let state = AwaitingFinder { home: Some(String::from("/home/alice")) };
    assert_eq!(
        state.finder_done(FinderReport::Ended(FinderResult::Cancelled)),
        Step::Finish(Outcome { stdout: Vec::new(), stderr: Vec::new(), code: 0 })
    );
}

#[test]
fn a_finder_that_cannot_be_started_is_reported() {
    let state = AwaitingFinder { home: None };
    assert_eq!(
        state.finder_done(FinderReport::Ended(FinderResult::Unavailable)),
        Step::Finish(session_error("Failed to start `fzf`. Check if it is installed.", 1))
    );
}

#[test]
fn output_without_the_separator_is_reported_without_a_path() {
    let state = AwaitingFinder { home: Some(String::from("/home/alice")) };
    let report = FinderReport::Ended(FinderResult::Selected(String::from("~/code/proj\n")));
    assert_eq!(
        state.finder_done(report),
        Step::Finish(session_error("Failed to parse selection", 1))
    );
    let state = AwaitingFinder { home: Some(String::from("/home/alice")) };
    let report = FinderReport::Ended(FinderResult::Selected(String::new()));
    assert_eq!(
        state.finder_done(report),
        Step::Finish(session_error("Failed to parse selection", 1))
    );
}

#[test]
fn a_failed_run_of_the_finder_is_reported() {
    let state = AwaitingFinder { home: None };
    assert_eq!(
        state.finder_done(FinderReport::WriteFailed(String::from("Broken pipe"))),
        Step::Finish(session_error("Failed to write to `fzf`: Broken pipe", 0))
    );
    let state = AwaitingFinder { home: None };
    assert_eq!(
        state.finder_done(FinderReport::WaitFailed(String::from("interrupted"))),
        Step::Finish(session_error("Failed to wait for `fzf`: interrupted", 1))
    );
}

#[test]
fn add_then_jump_then_remove() {
    let env = session_env();

    // The store is empty: there is no file yet.
    let state = match handle_command_in(&Command::Add { name: String::from("proj") }, &env) {
        Step::ReadStore(state) => state,
        other => panic!("unexpected step: {:?}", other),
    };
    assert_eq!(state.file, session_file());
    let state = match state.store_read(StoreFile::Missing) {
        Step::QueryDirectory(state) => state,
        other => panic!("unexpected step: {:?}", other),
    };
    let (file, bytes, state) = match state.directory(Some(String::from("/home/alice/code/proj")))
    {
        Step::WriteStore(file, bytes, state) => (file, bytes, state),
        other => panic!("unexpected step: {:?}", other),
    };
    assert_eq!(file, session_file());
    assert_eq!(bytes, b"proj,~/code/proj\n".to_vec());
    let outcome = session_finish(state.saved(Ok(())));
    assert_eq!(outcome.code, 0);
    assert_eq!(text_of_line(&outcome.stdout[0]), "Added: proj -> ~/code/proj");

    // The store holds the one shortcut, in portable form.
    let store = match load_shortcuts(StoreFile::Contents(bytes.clone())) {
        Ok(store) => store,
        Err(error) => panic!("load failed: {}", error.cause),
    };
    assert_eq!(store, session_store(&[("proj", "~/code/proj")]));

    // Looking it up prints the absolute path, with the code for cd.
    let state = match try_handle_shortcut_in(&Some(String::from("proj")), &env) {
        Step::ReadStore(state) => state,
        other => panic!("unexpected step: {:?}", other),
    };
    let outcome = session_finish(state.store_read(StoreFile::Contents(bytes.clone())));
    assert_eq!(outcome, session_path("/home/alice/code/proj"));

    // Removing it leaves the empty store.
    let state = match handle_command_in(&Command::Remove { name: String::from("proj") }, &env) {
        Step::ReadStore(state) => state,
        other => panic!("unexpected step: {:?}", other),
    };
    let (bytes, state) = match state.store_read(StoreFile::Contents(bytes)) {
        Step::WriteStore(_, bytes, state) => (bytes, state),
        other => panic!("unexpected step: {:?}", other),
    };
    assert_eq!(bytes, Vec::<u8>::new());
    assert_eq!(
        state.saved(Ok(())),
        Step::Finish(Outcome { stdout: Vec::new(), stderr: Vec::new(), code: 0 })
    );
    assert_eq!(load_shortcuts(StoreFile::Contents(bytes)), Ok(Store::new()));
}
