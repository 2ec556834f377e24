//! The portable form of a path: the home directory at its start is written as
//! `~`, so that a stored path stays valid when the home directory moves.

use vstd::prelude::*;
use vstd::string::*;
use crate::platform::{home_dir, opt_text};
use crate::text::{starts_with, to_chars};

verus! {

/// The portable form of `path`: where it starts with the home directory, that
/// prefix is replaced by `~`; otherwise, and where no home directory is known,
/// it is `path` itself. The prefix is matched character by character, not by
/// path components.
pub open spec fn normalized(path: Seq<char>, home: Option<Seq<char>>) -> Seq<char> {
    match home {
        Some(h) => if h.is_prefix_of(path) {
            seq!['~'] + path.skip(h.len() as int)
        } else {
            path
        },
        None => path,
    }
}

/// The absolute form of a portable path: `~` alone is the home directory, a
/// leading `~` before `/` is replaced by the home directory, and anything else,
/// as well as everything where no home directory is known, is left as it is.
pub open spec fn expanded(path: Seq<char>, home: Option<Seq<char>>) -> Seq<char> {
    match home {
        Some(h) => if path == seq!['~'] {
            h
        } else if seq!['~', '/'].is_prefix_of(path) {
            h + path.skip(1)
        } else {
            path
        },
        None => path,
    }
}

/// Expanding the portable form of a path that lies inside the home directory
/// gives the path back.
pub proof fn lemma_expand_normalize_inside_home(home: Seq<char>, rest: Seq<char>)
    ensures
        expanded(normalized(home + seq!['/'] + rest, Some(home)), Some(home)) == home + seq!['/']
            + rest,
{
}

/// The portable form of the home directory itself is `~`, and `~` expands to
/// the home directory.
pub proof fn lemma_home_is_marker(home: Seq<char>)
    ensures
        normalized(home, Some(home)) == seq!['~'],
        expanded(seq!['~'], Some(home)) == home,
{
}

/// A path that does not start with the home directory, nor with `~`, is its
/// own portable form, and expands to itself.
pub proof fn lemma_outside_home_is_kept(path: Seq<char>, home: Seq<char>)
    requires
        !home.is_prefix_of(path),
        path.len() > 0 ==> path[0] != '~',
    ensures
        normalized(path, Some(home)) == path,
        expanded(path, Some(home)) == path,
{
}

/// Without a home directory both forms of a path are the path itself.
pub proof fn lemma_no_home_is_identity(path: Seq<char>)
    ensures
        normalized(path, None) == path,
        expanded(path, None) == path,
{
}

/// The portable form of `path` for the home directory `home`.
pub fn normalize_with_home(path: &str, home: &Option<String>) -> (r: String)
    ensures
        r@ == normalized(path@, opt_text(*home)),
{
    match home {
        Some(h) => {
            let path_chars = to_chars(path);
            let home_chars = to_chars(h.as_str());
            if starts_with(path_chars.as_slice(), home_chars.as_slice()) {
                proof {
                    reveal_strlit("~");
                }
                let rest = path.substring_char(home_chars.len(), path_chars.len());
                String::from_str("~").concat(rest)
            } else {
                String::from_str(path)
            }
        },
        None => String::from_str(path),
    }
}

/// The absolute form of the portable path `path` for the home directory `home`.
pub fn expand_with_home(path: &str, home: &Option<String>) -> (r: String)
    ensures
        r@ == expanded(path@, opt_text(*home)),
{
    match home {
        Some(h) => {
            let chars = to_chars(path);
            if chars.len() == 1 && chars[0] == '~' {
                assert(path@ == seq!['~']);
                h.clone()
            } else if chars.len() >= 2 && chars[0] == '~' && chars[1] == '/' {
                let rest = path.substring_char(1, chars.len());
                h.clone().concat(rest)
            } else {
                String::from_str(path)
            }
        },
        None => String::from_str(path),
    }
}

/// The portable form of `path` for the home directory of this process's user.
/// Which directory that is depends on the environment: the result is the
/// portable form for some home directory, or for none.
pub fn normalize_path(path: &str) -> (r: String)
    ensures
        exists|home: Option<Seq<char>>| r@ == #[trigger] normalized(path@, home),
{
    let home = home_dir();
    normalize_with_home(path, &home)
}

/// The absolute form of the portable path `path` for the home directory of
/// this process's user. Which directory that is depends on the environment:
/// the result is the absolute form for some home directory, or for none.
pub fn expand_path(path: &str) -> (r: String)
    ensures
        exists|home: Option<Seq<char>>| r@ == #[trigger] expanded(path@, home),
{
    let home = home_dir();
    expand_with_home(path, &home)
}

} // verus!
