use shellprobe::ShellKind;
use shellprobe::detect::{
    attach_version, detect_tool, detection_kind, find_binary_direct, found_via_label,
    locate_command, resolve_detection, version_command, FoundVia,
};
use shellprobe::host::HostConfig;

fn unix_cfg(shell: &str) -> HostConfig {
    HostConfig {
        windows: false,
        os: "linux".to_string(),
        arch: "x86_64".to_string(),
        shell: Some(shell.to_string()),
        comspec: None,
        home: None,
        userprofile: None,
        appdata: None,
        path_var: None,
    }
}

#[test]
fn detection_kind_is_cmd_on_windows() {
    let mut cfg = unix_cfg("/usr/local/bin/pwsh");
    cfg.windows = true;
    cfg.comspec = Some("C:\\Windows\\System32\\cmd.exe".to_string());
    assert_eq!(detection_kind(&cfg), ShellKind::Cmd);
}

#[test]
fn detection_kind_follows_the_shell_elsewhere() {
    assert_eq!(detection_kind(&unix_cfg("/usr/bin/fish")), ShellKind::Fish);
    assert_eq!(detection_kind(&unix_cfg("/bin/zsh")), ShellKind::Posix);
}

#[test]
fn locate_commands_per_dialect() {
    assert_eq!(locate_command(&ShellKind::Cmd, "git").as_str(), "where git");
    assert_eq!(
        locate_command(&ShellKind::Pwsh, "git").as_str(),
        "(Get-Command git -ErrorAction SilentlyContinue).Source"
    );
    assert_eq!(locate_command(&ShellKind::Posix, "git").as_str(), "which git");
    assert_eq!(locate_command(&ShellKind::Fish, "git").as_str(), "which git");
    assert_eq!(locate_command(&ShellKind::Nu, "git").as_str(), "which git");
}

#[test]
fn version_command_appends_flag() {
    assert_eq!(version_command("git").as_str(), "git --version");
}

#[test]
fn not_found_detection_is_fully_empty() {
    let det = resolve_detection("ghost-tool".to_string(), None, None);
    assert_eq!(det.command.as_str(), "ghost-tool");
    assert!(!det.installed);
    assert_eq!(det.path, None);
    assert_eq!(det.version, None);
    assert_eq!(det.found_via, FoundVia::NotFound);
}

#[test]
fn shell_finding_wins_over_direct() {
    let det = resolve_detection(
        "git".to_string(),
        Some("/usr/local/bin/git".to_string()),
        Some("/other/git".to_string()),
    );
    assert!(det.installed);
    assert_eq!(det.path.as_deref(), Some("/usr/local/bin/git"));
    assert_eq!(det.found_via, FoundVia::Shell);
}

#[test]
fn direct_finding_used_when_shell_fails() {
    let det = resolve_detection("rg".to_string(), None, Some("/usr/bin/rg".to_string()));
    assert!(det.installed);
    assert_eq!(det.path.as_deref(), Some("/usr/bin/rg"));
    assert_eq!(det.found_via, FoundVia::Direct);
}

#[test]
fn detection_is_idempotent() {
    let a = resolve_detection("git".to_string(), Some("/u/git".to_string()), None);
    let b = resolve_detection("git".to_string(), Some("/u/git".to_string()), None);
    assert_eq!(a, b);
    let c = resolve_detection("x".to_string(), None, None);
    let d = resolve_detection("x".to_string(), None, None);
    assert_eq!(c, d);
}

#[test]
fn end_to_end_shell_detection() {
    // The shell invocation of `which git` answered cleanly, with no banner.
    let cfg = unix_cfg("/bin/zsh");
    let kind = detection_kind(&cfg);
    assert_eq!(locate_command(&kind, "git").as_str(), "which git");
    let raw = Some("/usr/local/bin/git\n".to_string());
    let det = detect_tool("git".to_string(), &kind, &raw, &cfg);
    assert!(det.installed);
    assert_eq!(det.path.as_deref(), Some("/usr/local/bin/git"));
    assert_eq!(det.found_via, FoundVia::Shell);
    assert_eq!(det.version, None);
}

#[test]
fn detect_tool_not_found_anywhere() {
    // No shell output, and a name no search path will resolve.
    let cfg = unix_cfg("/bin/zsh");
    let det = detect_tool(
        "surely-not-a-real-tool-name-zzqx".to_string(),
        &ShellKind::Posix,
        &None,
        &cfg,
    );
    assert!(!det.installed);
    assert_eq!(det.path, None);
    assert_eq!(det.version, None);
    assert_eq!(det.found_via, FoundVia::NotFound);
}

#[test]
fn detect_tool_ignores_banner_only_output() {
    let cfg = unix_cfg("/bin/zsh");
    let raw = Some("welcome banner\nno path in sight".to_string());
    let det = detect_tool(
        "surely-not-a-real-tool-name-zzqx".to_string(),
        &ShellKind::Posix,
        &raw,
        &cfg,
    );
    assert!(!det.installed);
    assert_eq!(det.found_via, FoundVia::NotFound);
}

#[test]
fn direct_tier_finds_a_real_binary_when_the_shell_tier_fails() {
    // The shell invocation yielded nothing; the direct search still finds
    // the POSIX shell on the explicit search path.
    let mut cfg = unix_cfg("/bin/zsh");
    cfg.path_var = Some("/bin:/usr/bin".to_string());
    let det = detect_tool("sh".to_string(), &ShellKind::Posix, &None, &cfg);
    assert!(det.installed);
    assert_eq!(det.found_via, FoundVia::Direct);
    assert!(det.path.is_some());
}

#[test]
fn direct_search_misses_nonexistent_binaries() {
    let cfg = unix_cfg("/bin/zsh");
    assert_eq!(find_binary_direct("surely-not-a-real-tool-name-zzqx", &cfg), None);
}

#[test]
fn version_attaches_only_to_installed_tools() {
    let det = resolve_detection("git".to_string(), Some("/u/git".to_string()), None);
    let with = attach_version(det, &Some("banner\ngit version 2.39.2\n".to_string()));
    assert_eq!(with.version.as_deref(), Some("git version 2.39.2"));
    assert_eq!(with.path.as_deref(), Some("/u/git"));
    assert_eq!(with.found_via, FoundVia::Shell);

    let missing = resolve_detection("ghost".to_string(), None, None);
    let still_missing = attach_version(missing, &Some("2.0".to_string()));
    assert_eq!(still_missing.version, None);

    let det2 = resolve_detection("git".to_string(), Some("/u/git".to_string()), None);
    let no_output = attach_version(det2, &None);
    assert_eq!(no_output.version, None);
    assert!(no_output.installed);
}

#[test]
fn found_via_labels() {
    assert_eq!(found_via_label(&FoundVia::Shell).as_str(), "shell");
    assert_eq!(found_via_label(&FoundVia::Direct).as_str(), "direct");
    assert_eq!(found_via_label(&FoundVia::NotFound).as_str(), "not_found");
}
