use hop::shell::{script_file_name, shell_family, ShellFamily};

#[test]
fn bash_and_zsh_share_a_script() {
    assert_eq!(shell_family("bash"), Some(ShellFamily::Posix));
    assert_eq!(shell_family("zsh"), Some(ShellFamily::Posix));
}

#[test]
fn fish_has_its_own_script() {
    assert_eq!(shell_family("fish"), Some(ShellFamily::Fish));
}

#[test]
fn powershell_has_three_names() {
    assert_eq!(shell_family("powershell"), Some(ShellFamily::PowerShell));
    assert_eq!(shell_family("pwsh"), Some(ShellFamily::PowerShell));
    assert_eq!(shell_family("ps1"), Some(ShellFamily::PowerShell));
}

#[test]
fn other_shells_have_no_script() {
    for name in ["sh", "Bash", "BASH", "bash ", "", "cmd", "nu", "powershell.exe", "zsh5"] {
        assert_eq!(shell_family(name), None);
    }
}

#[test]
fn each_family_has_its_file_name() {
    assert_eq!(script_file_name(ShellFamily::Posix), "hop.sh");
    assert_eq!(script_file_name(ShellFamily::Fish), "hop.fish");
    assert_eq!(script_file_name(ShellFamily::PowerShell), "hop.ps1");
}
