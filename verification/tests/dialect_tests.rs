use shellprobe::ShellKind;
use shellprobe::dialect::{detect_shell_kind, kind_label};

#[test]
fn classifies_fish() {
    assert_eq!(detect_shell_kind("/usr/bin/fish"), ShellKind::Fish);
    assert_eq!(detect_shell_kind("fish"), ShellKind::Fish);
}

#[test]
fn classifies_posix_shells() {
    assert_eq!(detect_shell_kind("/bin/zsh"), ShellKind::Posix);
    assert_eq!(detect_shell_kind("/bin/bash"), ShellKind::Posix);
    assert_eq!(detect_shell_kind("/bin/sh"), ShellKind::Posix);
    assert_eq!(detect_shell_kind("/usr/bin/dash"), ShellKind::Posix);
}

#[test]
fn classifies_pwsh() {
    assert_eq!(detect_shell_kind("/usr/local/bin/pwsh"), ShellKind::Pwsh);
    assert_eq!(detect_shell_kind("C:\\Program Files\\PowerShell\\7\\pwsh.exe"), ShellKind::Pwsh);
    assert_eq!(
        detect_shell_kind("C:\\Windows\\System32\\WindowsPowerShell\\v1.0\\powershell.exe"),
        ShellKind::Pwsh
    );
}

#[test]
fn classifies_nushell() {
    assert_eq!(detect_shell_kind("/usr/bin/nu"), ShellKind::Nu);
    assert_eq!(detect_shell_kind("/opt/nushell/nushell"), ShellKind::Nu);
}

#[test]
fn classifies_cmd() {
    assert_eq!(detect_shell_kind("C:\\Windows\\System32\\cmd.exe"), ShellKind::Cmd);
    assert_eq!(detect_shell_kind("cmd"), ShellKind::Cmd);
}

#[test]
fn classification_is_case_insensitive() {
    assert_eq!(detect_shell_kind("/usr/bin/FISH"), ShellKind::Fish);
    assert_eq!(detect_shell_kind("C:\\CMD.EXE"), ShellKind::Cmd);
}

#[test]
fn unrecognized_names_default_to_posix() {
    assert_eq!(detect_shell_kind("/usr/bin/xonsh"), ShellKind::Posix);
    assert_eq!(detect_shell_kind(""), ShellKind::Posix);
    assert_eq!(detect_shell_kind("/odd/path/"), ShellKind::Posix);
}

#[test]
fn trailing_separators_are_ignored() {
    assert_eq!(detect_shell_kind("/opt/fish/"), ShellKind::Fish);
    assert_eq!(detect_shell_kind("C:\\nushell\\nu.exe\\"), ShellKind::Nu);
    assert_eq!(detect_shell_kind("///"), ShellKind::Posix);
}

#[test]
fn dotfile_names_keep_their_dot() {
    // A name that only opens with a dot has no extension to strip.
    assert_eq!(detect_shell_kind("/home/u/.fish"), ShellKind::Posix);
}

#[test]
fn kind_labels() {
    assert_eq!(kind_label(&ShellKind::Posix).as_str(), "Posix");
    assert_eq!(kind_label(&ShellKind::Fish).as_str(), "Fish");
    assert_eq!(kind_label(&ShellKind::Pwsh).as_str(), "Pwsh");
    assert_eq!(kind_label(&ShellKind::Nu).as_str(), "Nu");
    assert_eq!(kind_label(&ShellKind::Cmd).as_str(), "Cmd");
}
