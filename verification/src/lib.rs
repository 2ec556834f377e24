//! Named shortcuts to directories.
//!
//! A shortcut is a name for a directory. The shortcuts are kept in a store,
//! which is saved as a CSV file below the user's configuration directory, and
//! a shell function changes to the directory of a shortcut that is asked for
//! by name or picked in an interactive finder.
//!
//! - [`text`]: prefixes, search, trimming, numerals and padding on characters.
//! - [`portable`]: the portable form of a path, with `~` for the home
//!   directory, and back.
//! - [`store`]: the store, a mapping from names to portable paths.
//! - [`persist`]: the store as the contents of its file.
//! - [`select`]: choosing a shortcut by name or through the finder.
//! - [`listing`]: the list of all shortcuts.
//! - [`shell`]: the shells that have an initialization script.
//! - [`platform`]: the directories that the platform names.
//! - [`output`]: what an invocation prints, and its exit code.
//! - [`step`], [`protocol`], [`session`]: the steps of an invocation as data,
//!   the rules that say which step follows which, and the functions that take
//!   the steps.
//!
//! The library touches no file and runs no program: [`session`] hands out what
//! is to be done, and takes what came of it.

pub mod listing;
pub mod output;
pub mod persist;
pub mod platform;
pub mod portable;
pub mod protocol;
pub mod select;
pub mod session;
pub mod shell;
pub mod step;
pub mod store;
pub mod text;
