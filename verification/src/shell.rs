//! The shells that an initialization script exists for, and the name of the
//! file that each script is installed as.

use vstd::prelude::*;
use vstd::string::*;
use crate::text::same_text;

verus! {

/// A family of shells that share one initialization script.
#[derive(Clone, Copy, Debug, PartialEq, Eq, Structural)]
pub enum ShellFamily {
    /// `bash` and `zsh`.
    Posix,
    /// `fish`.
    Fish,
    /// PowerShell.
    PowerShell,
}

/// The shell that is assumed where none is named.
pub open spec fn default_shell() -> Seq<char> {
    "bash"@
}

/// The family of the shell called `name`; `None` for a shell that has no
/// script.
pub open spec fn family_of(name: Seq<char>) -> Option<ShellFamily> {
    if name == "bash"@ || name == "zsh"@ {
        Some(ShellFamily::Posix)
    } else if name == "fish"@ {
        Some(ShellFamily::Fish)
    } else if name == "powershell"@ || name == "pwsh"@ || name == "ps1"@ {
        Some(ShellFamily::PowerShell)
    } else {
        None
    }
}

/// The name of the file that the script of `family` is installed as.
pub open spec fn script_name(family: ShellFamily) -> Seq<char> {
    match family {
        ShellFamily::Posix => "hop.sh"@,
        ShellFamily::Fish => "hop.fish"@,
        ShellFamily::PowerShell => "hop.ps1"@,
    }
}

/// The family of the shell called `name`.
pub fn shell_family(name: &str) -> (family: Option<ShellFamily>)
    ensures
        family == family_of(name@),
{
    if same_text(name, "bash") || same_text(name, "zsh") {
        Some(ShellFamily::Posix)
    } else if same_text(name, "fish") {
        Some(ShellFamily::Fish)
    } else if same_text(name, "powershell") || same_text(name, "pwsh") || same_text(name, "ps1") {
        Some(ShellFamily::PowerShell)
    } else {
        None
    }
}

/// The name of the file that the script of `family` is installed as.
pub fn script_file_name(family: ShellFamily) -> (name: &'static str)
    ensures
        name@ == script_name(family),
{
    match family {
        ShellFamily::Posix => "hop.sh",
        ShellFamily::Fish => "hop.fish",
        ShellFamily::PowerShell => "hop.ps1",
    }
}

} // verus!
