use shellprobe::envmap::{parse_shell_env, EnvMap};
use shellprobe::environment::{detect_environment, get_platform_shell};
use shellprobe::host::HostConfig;

fn unix_cfg() -> HostConfig {
    HostConfig {
        windows: false,
        os: "macos".to_string(),
        arch: "aarch64".to_string(),
        shell: Some("/bin/zsh".to_string()),
        comspec: None,
        home: Some("/Users/dev".to_string()),
        userprofile: None,
        appdata: None,
        path_var: Some("/usr/bin".to_string()),
    }
}

#[test]
fn parses_null_delimited_environment() {
    let m = parse_shell_env("FOO=bar\0BAZ=qux\0");
    assert_eq!(m.get("FOO").map(|v| v.as_str()), Some("bar"));
    assert_eq!(m.get("BAZ").map(|v| v.as_str()), Some("qux"));
    assert_eq!(m.get("MISSING"), None);
}

#[test]
fn drops_entries_with_empty_keys() {
    let m = parse_shell_env("=orphan\0FOO=bar\0");
    assert_eq!(m.get(""), None);
    assert_eq!(m.get("FOO").map(|v| v.as_str()), Some("bar"));
    assert_eq!(m.len(), 1);
}

#[test]
fn drops_entries_without_separator() {
    let m = parse_shell_env("NOEQUALS\0FOO=bar\0");
    assert_eq!(m.get("NOEQUALS"), None);
    assert_eq!(m.len(), 1);
}

#[test]
fn splits_on_first_equals_only() {
    let m = parse_shell_env("EXPR=a=b=c\0");
    assert_eq!(m.get("EXPR").map(|v| v.as_str()), Some("a=b=c"));
}

#[test]
fn values_may_hold_newlines() {
    let m = parse_shell_env("MULTI=line one\nline two\0");
    assert_eq!(m.get("MULTI").map(|v| v.as_str()), Some("line one\nline two"));
}

#[test]
fn later_entries_override_earlier_ones() {
    let m = parse_shell_env("X=1\0X=2\0");
    assert_eq!(m.get("X").map(|v| v.as_str()), Some("2"));
    assert_eq!(m.len(), 1);
}

#[test]
fn envmap_insert_and_lookup() {
    let mut m = EnvMap::new();
    assert_eq!(m.len(), 0);
    m.insert("PATH".to_string(), "/usr/bin".to_string());
    m.insert("HOME".to_string(), "/home/u".to_string());
    m.insert("PATH".to_string(), "/opt/bin".to_string());
    assert_eq!(m.len(), 2);
    assert_eq!(m.get("PATH").map(|v| v.as_str()), Some("/opt/bin"));
    assert_eq!(m.entries().len(), 2);
}

#[test]
fn environment_info_reflects_the_config() {
    let info = detect_environment(&unix_cfg());
    assert_eq!(info.os.as_str(), "macos aarch64");
    assert_eq!(info.arch.as_str(), "aarch64");
    assert_eq!(info.shell_path.as_str(), "/bin/zsh");
    assert_eq!(info.shell_kind.as_str(), "Posix");
    assert_eq!(info.extra_dirs[0].as_str(), "/Users/dev/go/bin");
    assert_eq!(info.extra_dirs.len(), 8);
}

#[test]
fn platform_shell_unix_is_login_shell() {
    let ps = get_platform_shell(&unix_cfg());
    assert_eq!(ps.os.as_str(), "macos");
    assert_eq!(ps.shell.as_str(), "/bin/zsh");
    let args: Vec<&str> = ps.interactive_args.iter().map(|a| a.as_str()).collect();
    assert_eq!(args, vec!["--login"]);
}

#[test]
fn platform_shell_windows_defaults_to_powershell() {
    let mut cfg = unix_cfg();
    cfg.windows = true;
    cfg.comspec = None;
    let ps = get_platform_shell(&cfg);
    assert_eq!(ps.shell.as_str(), "powershell.exe");
    let args: Vec<&str> = ps.interactive_args.iter().map(|a| a.as_str()).collect();
    assert_eq!(args, vec!["-NoLogo"]);

    cfg.comspec = Some("C:\\Windows\\System32\\cmd.exe".to_string());
    let ps2 = get_platform_shell(&cfg);
    assert_eq!(ps2.shell.as_str(), "C:\\Windows\\System32\\cmd.exe");
    assert!(ps2.interactive_args.is_empty());

    cfg.comspec = Some("C:\\Tools\\PWSH.EXE".to_string());
    let ps3 = get_platform_shell(&cfg);
    let args3: Vec<&str> = ps3.interactive_args.iter().map(|a| a.as_str()).collect();
    assert_eq!(args3, vec!["-NoLogo"]);
}
