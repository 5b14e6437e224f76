use shellprobe::ShellKind;
use shellprobe::extract::{extract_path, extract_version};

#[test]
fn posix_extraction_skips_banners() {
    let raw = "Welcome to zsh!\nsome rc noise\n/usr/local/bin/git\n";
    assert_eq!(
        extract_path(raw, &ShellKind::Posix),
        Some("/usr/local/bin/git".to_string())
    );
}

#[test]
fn posix_extraction_takes_last_path_line() {
    let raw = "/etc/motd mentioned\n/usr/bin/old\n/usr/local/bin/new";
    assert_eq!(
        extract_path(raw, &ShellKind::Posix),
        Some("/usr/local/bin/new".to_string())
    );
}

#[test]
fn posix_extraction_trims_the_line() {
    let raw = "banner\n   /usr/bin/tool  \n";
    assert_eq!(extract_path(raw, &ShellKind::Posix), Some("/usr/bin/tool".to_string()));
}

#[test]
fn posix_extraction_none_without_path() {
    let raw = "banner only\nno path here";
    assert_eq!(extract_path(raw, &ShellKind::Posix), None);
    assert_eq!(extract_path("", &ShellKind::Fish), None);
}

#[test]
fn fish_and_nu_use_the_posix_rule() {
    let raw = "noise\n/opt/homebrew/bin/node\n";
    assert_eq!(
        extract_path(raw, &ShellKind::Fish),
        Some("/opt/homebrew/bin/node".to_string())
    );
    assert_eq!(
        extract_path(raw, &ShellKind::Nu),
        Some("/opt/homebrew/bin/node".to_string())
    );
}

#[test]
fn pwsh_extraction_finds_drive_letter_among_decoys() {
    let raw = "Loading profile\nC:\\Tools\\git\\git.exe\nGoodbye decoy";
    assert_eq!(
        extract_path(raw, &ShellKind::Pwsh),
        Some("C:\\Tools\\git\\git.exe".to_string())
    );
}

#[test]
fn pwsh_extraction_scans_from_the_end() {
    let raw = "C:\\old\\tool.exe\nnoise\nC:\\new\\tool.exe";
    assert_eq!(extract_path(raw, &ShellKind::Pwsh), Some("C:\\new\\tool.exe".to_string()));
}

#[test]
fn pwsh_extraction_accepts_unix_paths() {
    let raw = "banner\n/usr/local/bin/pwsh-found";
    assert_eq!(
        extract_path(raw, &ShellKind::Pwsh),
        Some("/usr/local/bin/pwsh-found".to_string())
    );
}

#[test]
fn pwsh_extraction_needs_a_real_drive_line() {
    // Too short for a drive-letter path, and no leading slash.
    assert_eq!(extract_path("C:", &ShellKind::Pwsh), None);
    assert_eq!(extract_path("ab\ncd", &ShellKind::Pwsh), None);
    // Only a letter opens a drive: a timestamp is no path.
    assert_eq!(extract_path("9:45 done", &ShellKind::Pwsh), None);
}

#[test]
fn pwsh_extraction_skips_timestamp_shaped_banners() {
    // A later line with a colon at the second position is still no drive
    // unless a letter opens it; the drive line wins.
    let raw = "C:\\x\n9:45 done";
    assert_eq!(extract_path(raw, &ShellKind::Pwsh), Some("C:\\x".to_string()));
}

#[test]
fn extraction_trims_unicode_whitespace() {
    // A no-break space around the result line is trimmed away like ASCII
    // whitespace.
    let raw = "banner\n\u{a0}/usr/bin/tool\u{a0}\n";
    assert_eq!(extract_path(raw, &ShellKind::Posix), Some("/usr/bin/tool".to_string()));
}

#[test]
fn cmd_extraction_takes_first_nonblank_line() {
    let raw = "\n  \nC:\\Windows\\System32\\where.exe\nC:\\second.exe";
    assert_eq!(
        extract_path(raw, &ShellKind::Cmd),
        Some("C:\\Windows\\System32\\where.exe".to_string())
    );
    assert_eq!(extract_path("   \n\t\n", &ShellKind::Cmd), None);
}

#[test]
fn version_extraction_takes_last_digit_line() {
    let raw = "welcome banner\ngit version 2.39.2\n";
    assert_eq!(extract_version(raw).as_str(), "git version 2.39.2");
}

#[test]
fn version_extraction_prefers_later_digit_lines() {
    let raw = "v1 banner 1\nsome text\nnode v20.11.0";
    assert_eq!(extract_version(raw).as_str(), "node v20.11.0");
}

#[test]
fn version_extraction_falls_back_to_last_line() {
    let raw = "no digits here\nnor here";
    assert_eq!(extract_version(raw).as_str(), "nor here");
}

#[test]
fn version_extraction_trims() {
    assert_eq!(extract_version("  tool 1.0  ").as_str(), "tool 1.0");
}
