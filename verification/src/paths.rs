//! Path augmentation: the well-known install directories that a GUI-launched
//! process may be missing from its PATH.  Directories are listed
//! unconditionally, in precedence order; lookups downstream skip ones that do
//! not exist.

use vstd::prelude::*;

verus! {

/// The supplementary directories on a Unix-like system.  With a known,
/// non-empty home directory, the user-local toolchain directories come
/// first; the fixed system directories follow, Apple-Silicon Homebrew ahead
/// of the Intel/system prefix.
pub open spec fn spec_extra_dirs_unix(home: Option<Seq<char>>) -> Seq<Seq<char>> {
    let base = seq![
        "/opt/homebrew/bin"@,
        "/usr/local/bin"@,
        "/usr/local/go/bin"@,
        "/snap/bin"@,
    ];
    match home {
        Some(h) => {
            if h.len() > 0 {
                seq![h + "/go/bin"@, h + "/.local/bin"@, h + "/.cargo/bin"@, h + "/.bun/bin"@]
                    + base
            } else {
                base
            }
        },
        None => base,
    }
}

/// Build the extra PATH directories for a Unix-like system.
pub fn extra_path_dirs_unix(home: &Option<String>) -> (dirs: Vec<String>)
    ensures
        dirs.deep_view() == spec_extra_dirs_unix(home.deep_view()),
{
    let mut dirs: Vec<String> = Vec::new();
    match home {
        Some(h) if h.as_str().unicode_len() > 0 => {
            dirs.push(h.clone().concat("/go/bin"));
            dirs.push(h.clone().concat("/.local/bin"));
            dirs.push(h.clone().concat("/.cargo/bin"));
            dirs.push(h.clone().concat("/.bun/bin"));
        },
        _ => {},
    }
    dirs.push(String::from_str("/opt/homebrew/bin"));
    dirs.push(String::from_str("/usr/local/bin"));
    dirs.push(String::from_str("/usr/local/go/bin"));
    dirs.push(String::from_str("/snap/bin"));
    proof {
        assert(dirs.deep_view() =~= spec_extra_dirs_unix(home.deep_view()));
    }
    dirs
}

/// The supplementary directories on Windows: the user-profile toolchain
/// directories when the profile is known, then the roaming npm directory
/// when the application-data directory is known.
pub open spec fn spec_extra_dirs_windows(
    userprofile: Option<Seq<char>>,
    appdata: Option<Seq<char>>,
) -> Seq<Seq<char>> {
    let profile_dirs: Seq<Seq<char>> = match userprofile {
        Some(p) => {
            if p.len() > 0 {
                seq![p + "\\go\\bin"@, p + "\\.cargo\\bin"@, p + "\\.bun\\bin"@]
            } else {
                Seq::empty()
            }
        },
        None => Seq::empty(),
    };
    let appdata_dirs: Seq<Seq<char>> = match appdata {
        Some(a) => {
            if a.len() > 0 {
                seq![a + "\\npm"@]
            } else {
                Seq::empty()
            }
        },
        None => Seq::empty(),
    };
    profile_dirs + appdata_dirs
}

/// Build the extra PATH directories for Windows.
pub fn extra_path_dirs_windows(userprofile: &Option<String>, appdata: &Option<String>) -> (dirs:
    Vec<String>)
    ensures
        dirs.deep_view() == spec_extra_dirs_windows(userprofile.deep_view(), appdata.deep_view()),
{
    let mut dirs: Vec<String> = Vec::new();
    match userprofile {
        Some(p) if p.as_str().unicode_len() > 0 => {
            dirs.push(p.clone().concat("\\go\\bin"));
            dirs.push(p.clone().concat("\\.cargo\\bin"));
            dirs.push(p.clone().concat("\\.bun\\bin"));
        },
        _ => {},
    }
    match appdata {
        Some(a) if a.as_str().unicode_len() > 0 => {
            dirs.push(a.clone().concat("\\npm"));
        },
        _ => {},
    }
    proof {
        assert(dirs.deep_view() =~= spec_extra_dirs_windows(
            userprofile.deep_view(),
            appdata.deep_view(),
        ));
    }
    dirs
}

/// Law: in the Unix directory list, the Apple-Silicon Homebrew directory
/// always precedes the Intel/system prefix, whatever the home directory is.
pub proof fn lemma_homebrew_precedes_usr_local(home: Option<Seq<char>>)
    ensures
        forall|j: int|
            0 <= j < spec_extra_dirs_unix(home).len() && spec_extra_dirs_unix(home)[j]
                == "/usr/local/bin"@ ==> exists|i: int|
                0 <= i < j && spec_extra_dirs_unix(home)[i] == "/opt/homebrew/bin"@,
{
    let d = spec_extra_dirs_unix(home);
    let hb = "/opt/homebrew/bin"@;
    let usr = "/usr/local/bin"@;
    reveal_strlit("/opt/homebrew/bin");
    reveal_strlit("/usr/local/bin");
    reveal_strlit("/go/bin");
    reveal_strlit("/.local/bin");
    reveal_strlit("/.cargo/bin");
    reveal_strlit("/.bun/bin");
    assert(hb.len() == 17);
    assert(usr.len() == 14);
    let has_home = home is Some && home->0.len() > 0;
    let hb_at: int = if has_home {
        4
    } else {
        0
    };
    assert(d[hb_at] == hb);
    assert forall|j: int| 0 <= j < d.len() && d[j] == usr implies exists|i: int|
        0 <= i < j && d[i] == hb by {
        if j > hb_at {
            assert(d[hb_at] == hb);
        } else {
            // No earlier entry can be the Intel/system prefix: the
            // home-derived entries each continue past the home part with a
            // `/`, where the prefix has a letter, and the Homebrew entry has
            // a different length.
            if has_home && j < 4 {
                let h = home->0;
                if j == 0 {
                    assert(d[j] == h + "/go/bin"@);
                    assert(h.len() == 7) by {
                        assert((h + "/go/bin"@).len() == usr.len());
                    }
                    assert((h + "/go/bin"@)[7] == '/');
                    assert(usr[7] == 'c');
                } else if j == 1 {
                    assert(d[j] == h + "/.local/bin"@);
                    assert(h.len() == 3) by {
                        assert((h + "/.local/bin"@).len() == usr.len());
                    }
                    assert((h + "/.local/bin"@)[3] == '/');
                    assert(usr[3] == 'r');
                } else if j == 2 {
                    assert(d[j] == h + "/.cargo/bin"@);
                    assert(h.len() == 3) by {
                        assert((h + "/.cargo/bin"@).len() == usr.len());
                    }
                    assert((h + "/.cargo/bin"@)[3] == '/');
                    assert(usr[3] == 'r');
                } else {
                    assert(d[j] == h + "/.bun/bin"@);
                    assert(h.len() == 5) by {
                        assert((h + "/.bun/bin"@).len() == usr.len());
                    }
                    assert((h + "/.bun/bin"@)[5] == '/');
                    assert(usr[5] == 'l');
                }
                assert(false);
            } else {
                assert(d[j] == hb);
                assert(false);
            }
        }
    }
}

} // verus!
