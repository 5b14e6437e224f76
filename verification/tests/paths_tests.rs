use shellprobe::paths::{extra_path_dirs_unix, extra_path_dirs_windows};

#[test]
fn unix_dirs_with_home() {
    let dirs = extra_path_dirs_unix(&Some("/home/u".to_string()));
    let expected = vec![
        "/home/u/go/bin",
        "/home/u/.local/bin",
        "/home/u/.cargo/bin",
        "/home/u/.bun/bin",
        "/opt/homebrew/bin",
        "/usr/local/bin",
        "/usr/local/go/bin",
        "/snap/bin",
    ];
    let got: Vec<&str> = dirs.iter().map(|d| d.as_str()).collect();
    assert_eq!(got, expected);
}

#[test]
fn unix_dirs_without_home() {
    let dirs = extra_path_dirs_unix(&None);
    let got: Vec<&str> = dirs.iter().map(|d| d.as_str()).collect();
    assert_eq!(got, vec!["/opt/homebrew/bin", "/usr/local/bin", "/usr/local/go/bin", "/snap/bin"]);
    let empty_home = extra_path_dirs_unix(&Some(String::new()));
    let got2: Vec<&str> = empty_home.iter().map(|d| d.as_str()).collect();
    assert_eq!(got, got2);
}

#[test]
fn homebrew_precedes_usr_local() {
    for home in [None, Some("/Users/dev".to_string())] {
        let dirs = extra_path_dirs_unix(&home);
        let hb = dirs.iter().position(|d| d == "/opt/homebrew/bin").unwrap();
        let usr = dirs.iter().position(|d| d == "/usr/local/bin").unwrap();
        assert!(hb < usr);
    }
}

#[test]
fn windows_dirs_with_profile_and_appdata() {
    let dirs = extra_path_dirs_windows(
        &Some("C:\\Users\\dev".to_string()),
        &Some("C:\\Users\\dev\\AppData\\Roaming".to_string()),
    );
    let got: Vec<&str> = dirs.iter().map(|d| d.as_str()).collect();
    assert_eq!(
        got,
        vec![
            "C:\\Users\\dev\\go\\bin",
            "C:\\Users\\dev\\.cargo\\bin",
            "C:\\Users\\dev\\.bun\\bin",
            "C:\\Users\\dev\\AppData\\Roaming\\npm",
        ]
    );
}

#[test]
fn windows_dirs_skip_unknown_locations() {
    assert!(extra_path_dirs_windows(&None, &None).is_empty());
    let only_appdata = extra_path_dirs_windows(&None, &Some("D:\\AppData".to_string()));
    let got: Vec<&str> = only_appdata.iter().map(|d| d.as_str()).collect();
    assert_eq!(got, vec!["D:\\AppData\\npm"]);
}
