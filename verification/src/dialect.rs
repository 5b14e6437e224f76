//! Shell classification: map a shell executable path to its dialect.
//!
//! The rule: take the file name without its extension, lowercase it, and look
//! it up in a fixed table; anything unrecognized is treated as POSIX, the
//! safe default accepted by the widest range of shells.

use vstd::prelude::*;

use crate::ShellKind;
use crate::text::{last_idx_of, lemma_last_idx_of_bounds, lower_str, rfind_char, spec_lower};

verus! {

/// Path separators: `/` everywhere, and `\` as it appears in Windows paths.
pub open spec fn is_sep_char(c: char) -> bool {
    c == '/' || c == '\\'
}

/// The index of the last path separator in `s`, or `-1` if there is none.
pub open spec fn last_sep_idx(s: Seq<char>) -> int
    decreases s.len(),
{
    if s.len() == 0 {
        -1
    } else if is_sep_char(s.last()) {
        s.len() - 1
    } else {
        last_sep_idx(s.drop_last())
    }
}

pub proof fn lemma_last_sep_idx_bounds(s: Seq<char>)
    ensures
        -1 <= last_sep_idx(s) < s.len(),
    decreases s.len(),
{
    if s.len() > 0 && !is_sep_char(s.last()) {
        lemma_last_sep_idx_bounds(s.drop_last());
    }
}

/// Find the last path separator in `s`.
pub fn rfind_sep(s: &str) -> (r: Option<usize>)
    ensures
        match r {
            Some(j) => j == last_sep_idx(s@),
            None => last_sep_idx(s@) == -1,
        },
{
    let n: usize = s.unicode_len();
    let mut i: usize = n;
    proof {
        assert(s@.subrange(0, n as int) =~= s@);
    }
    while i > 0
        invariant
            0 <= i <= n,
            n == s@.len(),
            last_sep_idx(s@) == last_sep_idx(s@.subrange(0, i as int)),
        decreases i,
    {
        proof {
            let pre = s@.subrange(0, i as int);
            assert(pre.drop_last() =~= s@.subrange(0, i - 1));
            assert(pre.last() == s@[i - 1]);
        }
        let c = s.get_char(i - 1);
        if c == '/' || c == '\\' {
            return Some(i - 1);
        }
        i = i - 1;
    }
    proof {
        assert(s@.subrange(0, 0) =~= Seq::<char>::empty());
    }
    None
}

/// `s` without its trailing separators: `/opt/fish/` names the same file
/// as `/opt/fish`.
pub open spec fn strip_trailing_seps(s: Seq<char>) -> Seq<char>
    decreases s.len(),
{
    if s.len() > 0 && is_sep_char(s.last()) {
        strip_trailing_seps(s.drop_last())
    } else {
        s
    }
}

/// The file-name part of `path`: everything after the last separator, with
/// trailing separators ignored.
pub open spec fn spec_file_name(path: Seq<char>) -> Seq<char> {
    let t = strip_trailing_seps(path);
    t.subrange(last_sep_idx(t) + 1, t.len() as int)
}

/// The stem of a file name: everything before the last `.`, unless the only
/// `.` opens the name (a dotfile keeps its full name).
pub open spec fn spec_stem_of_name(name: Seq<char>) -> Seq<char> {
    if last_idx_of(name, '.') >= 1 {
        name.subrange(0, last_idx_of(name, '.'))
    } else {
        name
    }
}

/// The file name of `path` without its extension.
pub open spec fn spec_file_stem(path: Seq<char>) -> Seq<char> {
    spec_stem_of_name(spec_file_name(path))
}

fn is_sep(c: char) -> (r: bool)
    ensures
        r == is_sep_char(c),
{
    c == '/' || c == '\\'
}

/// Extract the file name of `path` without its extension.
pub fn file_stem(path: &str) -> (r: String)
    ensures
        r@ == spec_file_stem(path@),
{
    let n: usize = path.unicode_len();
    let mut e: usize = n;
    proof {
        assert(path@.subrange(0, n as int) =~= path@);
    }
    while e > 0 && is_sep(path.get_char(e - 1))
        invariant
            0 <= e <= n,
            n == path@.len(),
            strip_trailing_seps(path@) == strip_trailing_seps(path@.subrange(0, e as int)),
        decreases e,
    {
        proof {
            let pre = path@.subrange(0, e as int);
            assert(pre.last() == path@[e - 1]);
            assert(pre.drop_last() =~= path@.subrange(0, e - 1));
        }
        e = e - 1;
    }
    let base = path.substring_char(0, e);
    proof {
        let pre = path@.subrange(0, e as int);
        if e > 0 {
            assert(pre.last() == path@[e - 1]);
        }
        assert(base@ == strip_trailing_seps(path@));
        lemma_last_sep_idx_bounds(base@);
    }
    let start: usize = match rfind_sep(base) {
        Some(j) => j + 1,
        None => 0,
    };
    let name = base.substring_char(start, e);
    proof {
        assert(name@ == spec_file_name(path@));
        lemma_last_idx_of_bounds(name@, '.');
    }
    let stem = match rfind_char(name, '.') {
        Some(j) if j >= 1 => name.substring_char(0, j),
        _ => name,
    };
    String::from_str(stem)
}

/// The dialect for a lowercased shell name.
pub open spec fn spec_classify(name: Seq<char>) -> ShellKind {
    if name == "fish"@ {
        ShellKind::Fish
    } else if name == "pwsh"@ || name == "powershell"@ {
        ShellKind::Pwsh
    } else if name == "nu"@ || name == "nushell"@ {
        ShellKind::Nu
    } else if name == "cmd"@ {
        ShellKind::Cmd
    } else {
        ShellKind::Posix
    }
}

/// The dialect of the shell at `path`.
pub open spec fn spec_shell_kind(path: Seq<char>) -> ShellKind {
    spec_classify(spec_lower(spec_file_stem(path)))
}

/// Classify a shell path to decide command syntax and flags.
pub fn detect_shell_kind(shell_path: &str) -> (k: ShellKind)
    ensures
        k == spec_shell_kind(shell_path@),
{
    let stem = file_stem(shell_path);
    let name = lower_str(stem.as_str());
    if name == String::from_str("fish") {
        ShellKind::Fish
    } else if name == String::from_str("pwsh") || name == String::from_str("powershell") {
        ShellKind::Pwsh
    } else if name == String::from_str("nu") || name == String::from_str("nushell") {
        ShellKind::Nu
    } else if name == String::from_str("cmd") {
        ShellKind::Cmd
    } else {
        ShellKind::Posix
    }
}

/// The display name of a dialect.
pub open spec fn spec_kind_label(k: ShellKind) -> Seq<char> {
    match k {
        ShellKind::Posix => "Posix"@,
        ShellKind::Fish => "Fish"@,
        ShellKind::Pwsh => "Pwsh"@,
        ShellKind::Nu => "Nu"@,
        ShellKind::Cmd => "Cmd"@,
    }
}

/// Name a dialect for display.
pub fn kind_label(k: &ShellKind) -> (r: String)
    ensures
        r@ == spec_kind_label(*k),
{
    match k {
        ShellKind::Posix => String::from_str("Posix"),
        ShellKind::Fish => String::from_str("Fish"),
        ShellKind::Pwsh => String::from_str("Pwsh"),
        ShellKind::Nu => String::from_str("Nu"),
        ShellKind::Cmd => String::from_str("Cmd"),
    }
}

/// Law: classification is exactly the fixed table on the lowercased stem.
/// A path whose shell name is `fish` is Fish, `pwsh` and `powershell` are
/// Pwsh, `nu` and `nushell` are Nu, `cmd` is Cmd, and every other name —
/// `zsh`, `bash`, or anything unrecognized — falls back to Posix.
pub proof fn lemma_classification(path: Seq<char>)
    ensures
        spec_lower(spec_file_stem(path)) == "fish"@ ==> spec_shell_kind(path) == ShellKind::Fish,
        spec_lower(spec_file_stem(path)) == "pwsh"@ ==> spec_shell_kind(path) == ShellKind::Pwsh,
        spec_lower(spec_file_stem(path)) == "powershell"@ ==> spec_shell_kind(path)
            == ShellKind::Pwsh,
        spec_lower(spec_file_stem(path)) == "nu"@ ==> spec_shell_kind(path) == ShellKind::Nu,
        spec_lower(spec_file_stem(path)) == "nushell"@ ==> spec_shell_kind(path) == ShellKind::Nu,
        spec_lower(spec_file_stem(path)) == "cmd"@ ==> spec_shell_kind(path) == ShellKind::Cmd,
        spec_lower(spec_file_stem(path)) != "fish"@ && spec_lower(spec_file_stem(path)) != "pwsh"@
            && spec_lower(spec_file_stem(path)) != "powershell"@ && spec_lower(
            spec_file_stem(path),
        ) != "nu"@ && spec_lower(spec_file_stem(path)) != "nushell"@ && spec_lower(
            spec_file_stem(path),
        ) != "cmd"@ ==> spec_shell_kind(path) == ShellKind::Posix,
{
    reveal_strlit("fish");
    reveal_strlit("pwsh");
    reveal_strlit("powershell");
    reveal_strlit("nu");
    reveal_strlit("nushell");
    reveal_strlit("cmd");
    assert("fish"@.len() == 4 && "pwsh"@.len() == 4 && "powershell"@.len() == 10);
    assert("nu"@.len() == 2 && "nushell"@.len() == 7 && "cmd"@.len() == 3);
    assert("pwsh"@[0] == 'p' && "fish"@[0] == 'f');
}

} // verus!
