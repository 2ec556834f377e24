//! What the platform tells of the user: the home directory and the directory
//! for configuration files. Both depend on the environment of the process, so
//! nothing is promised of them; the rest of the library takes them as values.

use vstd::prelude::*;
use vstd::string::*;

verus! {

/// The text of an optional string.
pub open spec fn opt_text(s: Option<String>) -> Option<Seq<char>> {
    match s {
        Some(s) => Some(s@),
        None => None,
    }
}

/// The directories that an invocation works with, read once at its start.
#[derive(Debug, PartialEq, Eq)]
pub struct Environment {
    /// The user's home directory, if it can be determined.
    pub home: Option<String>,
    /// The per-user configuration directory, if it can be determined.
    pub config_dir: Option<String>,
}

/// The model of an [`Environment`].
pub struct EnvironmentView {
    pub home: Option<Seq<char>>,
    pub config_dir: Option<Seq<char>>,
}

impl View for Environment {
    type V = EnvironmentView;

    open spec fn view(&self) -> EnvironmentView {
        EnvironmentView { home: opt_text(self.home), config_dir: opt_text(self.config_dir) }
    }
}

/// A file of this application below the configuration directory: the
/// directory, then the application's own directory in it, then the file's name.
#[derive(Debug, PartialEq, Eq)]
pub struct ConfigFile {
    pub config_dir: String,
    pub app_dir: String,
    pub file_name: String,
}

/// The model of a [`ConfigFile`].
pub struct ConfigFileView {
    pub config_dir: Seq<char>,
    pub app_dir: Seq<char>,
    pub file_name: Seq<char>,
}

impl View for ConfigFile {
    type V = ConfigFileView;

    open spec fn view(&self) -> ConfigFileView {
        ConfigFileView {
            config_dir: self.config_dir@,
            app_dir: self.app_dir@,
            file_name: self.file_name@,
        }
    }
}

/// The name of the application's directory below the configuration directory.
pub open spec fn app_dir_name() -> Seq<char> {
    "hop"@
}

/// The name of the file that holds the shortcuts.
pub open spec fn store_file_name() -> Seq<char> {
    "paths.csv"@
}

/// Where the shortcuts are kept below `config_dir`.
pub open spec fn store_file(config_dir: Seq<char>) -> ConfigFileView {
    ConfigFileView { config_dir, app_dir: app_dir_name(), file_name: store_file_name() }
}

/// `dirs::home_dir`: the user's home directory as text, with what is not
/// Unicode in it replaced. The answer depends on the environment, so nothing
/// is claimed of it.
#[verifier::external_body]
pub(crate) fn home_dir() -> Option<String> {
    dirs::home_dir().map(|home| home.to_string_lossy().into_owned())
}

/// `dirs::config_dir`: the per-user configuration directory as text, with what
/// is not Unicode in it replaced. The answer depends on the environment, so
/// nothing is claimed of it.
#[verifier::external_body]
fn config_dir() -> Option<String> {
    dirs::config_dir().map(|dir| dir.to_string_lossy().into_owned())
}

impl Environment {
    /// The environment of this process.
    pub fn detect() -> Environment {
        Environment { home: home_dir(), config_dir: config_dir() }
    }
}

/// The file that holds the shortcuts, below `config_dir`.
pub fn store_file_in(config_dir: String) -> (file: ConfigFile)
    ensures
        file@ == store_file(config_dir@),
{
    ConfigFile {
        config_dir,
        app_dir: String::from_str("hop"),
        file_name: String::from_str("paths.csv"),
    }
}

/// The file that holds the shortcuts, where the environment names a
/// configuration directory; `None` where it names none.
pub fn store_file_of(env: &Environment) -> (file: Option<ConfigFile>)
    ensures
        match file {
            Some(f) => env@.config_dir is Some && f@ == store_file(env@.config_dir->0),
            None => env@.config_dir is None,
        },
{
    match &env.config_dir {
        Some(dir) => Some(store_file_in(dir.clone())),
        None => None,
    }
}

/// The file that holds the shortcuts for the user of this process: below the
/// configuration directory that the platform names, or `None` if it names none.
pub fn get_config_path() -> (file: Option<ConfigFile>)
    ensures
        file matches Some(f) ==> f@ == store_file(f@.config_dir),
{
    match config_dir() {
        Some(dir) => Some(store_file_in(dir)),
        None => None,
    }
}

} // verus!
