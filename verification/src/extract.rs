//! Output extraction: recover the one meaningful line from raw shell output,
//! discarding the startup banners that rc/profile files may print.
//!
//! Interactive-shell noise typically precedes the command's own output, so
//! for path extraction every dialect except cmd.exe is scanned from the end,
//! and the last plausible path line wins.  Version extraction scans from the
//! end for the last line holding a decimal digit.

use vstd::prelude::*;

use crate::ShellKind;
use crate::text::{
    lemma_split_nonempty, spec_lines, spec_trim, split_lines, trim_str,
};

verus! {

/// A trimmed line that looks like an absolute Unix path.
pub open spec fn posix_path_line(t: Seq<char>) -> bool {
    t.len() > 0 && t[0] == '/'
}

/// An ASCII letter.
pub open spec fn is_ascii_letter(c: char) -> bool {
    (65 <= c as u32 <= 90) || (97 <= c as u32 <= 122)
}

/// A trimmed line that looks like a Windows drive-letter path: a drive
/// letter, then `:`, then at least one more character.
pub open spec fn drive_path_line(t: Seq<char>) -> bool {
    t.len() >= 3 && is_ascii_letter(t[0]) && t[1] == ':'
}

/// A trimmed line PowerShell could have produced for a command's source:
/// an absolute Unix path or a drive-letter path.
pub open spec fn pwsh_path_line(t: Seq<char>) -> bool {
    posix_path_line(t) || drive_path_line(t)
}

/// A decimal digit.
pub open spec fn is_digit_char(c: char) -> bool {
    48 <= c as u32 <= 57
}

/// A line containing at least one decimal digit — the mark of a version
/// string among banner lines.
pub open spec fn digit_line(t: Seq<char>) -> bool {
    exists|k: int| 0 <= k < t.len() && is_digit_char(t[k])
}

/// The last element of `parts` satisfying `p`, scanning from the end.
pub open spec fn last_where(parts: Seq<Seq<char>>, p: spec_fn(Seq<char>) -> bool) -> Option<
    Seq<char>,
>
    decreases parts.len(),
{
    if parts.len() == 0 {
        None
    } else if p(parts.last()) {
        Some(parts.last())
    } else {
        last_where(parts.drop_last(), p)
    }
}

/// The first element of `parts` satisfying `p`.
pub open spec fn first_where(parts: Seq<Seq<char>>, p: spec_fn(Seq<char>) -> bool) -> Option<
    Seq<char>,
>
    decreases parts.len(),
{
    if parts.len() == 0 {
        None
    } else if p(parts.first()) {
        Some(parts.first())
    } else {
        first_where(parts.drop_first(), p)
    }
}

/// If `p` holds at `i` and nowhere later, the backward scan picks `parts[i]`.
pub proof fn lemma_last_where_picks(
    parts: Seq<Seq<char>>,
    p: spec_fn(Seq<char>) -> bool,
    i: int,
)
    requires
        0 <= i < parts.len(),
        p(parts[i]),
        forall|j: int| i < j < parts.len() ==> !p(parts[j]),
    ensures
        last_where(parts, p) == Some(parts[i]),
    decreases parts.len(),
{
    if i < parts.len() - 1 {
        let t = parts.drop_last();
        assert(forall|j: int| i < j < t.len() ==> t[j] == parts[j]);
        lemma_last_where_picks(t, p, i);
    }
}

/// If `p` holds at `i` and nowhere earlier, the forward scan picks `parts[i]`.
pub proof fn lemma_first_where_picks(
    parts: Seq<Seq<char>>,
    p: spec_fn(Seq<char>) -> bool,
    i: int,
)
    requires
        0 <= i < parts.len(),
        p(parts[i]),
        forall|j: int| 0 <= j < i ==> !p(parts[j]),
    ensures
        first_where(parts, p) == Some(parts[i]),
    decreases i,
{
    if i > 0 {
        let t = parts.drop_first();
        assert(forall|j: int| 0 <= j < t.len() ==> t[j] == parts[j + 1]);
        lemma_first_where_picks(t, p, i - 1);
    }
}

/// The lines of `raw`, each trimmed.
pub open spec fn trimmed_lines(raw: Seq<char>) -> Seq<Seq<char>> {
    spec_lines(raw).map_values(|l: Seq<char>| spec_trim(l))
}

pub open spec fn posix_pred() -> spec_fn(Seq<char>) -> bool {
    |t: Seq<char>| posix_path_line(t)
}

pub open spec fn pwsh_pred() -> spec_fn(Seq<char>) -> bool {
    |t: Seq<char>| pwsh_path_line(t)
}

pub open spec fn nonblank_pred() -> spec_fn(Seq<char>) -> bool {
    |t: Seq<char>| t.len() > 0
}

pub open spec fn digit_pred() -> spec_fn(Seq<char>) -> bool {
    |t: Seq<char>| digit_line(t)
}

pub open spec fn spec_last_posix(parts: Seq<Seq<char>>) -> Option<Seq<char>> {
    last_where(parts, posix_pred())
}

pub open spec fn spec_last_pwsh(parts: Seq<Seq<char>>) -> Option<Seq<char>> {
    last_where(parts, pwsh_pred())
}

pub open spec fn spec_first_nonblank(parts: Seq<Seq<char>>) -> Option<Seq<char>> {
    first_where(parts, nonblank_pred())
}

pub open spec fn spec_last_digit(parts: Seq<Seq<char>>) -> Option<Seq<char>> {
    last_where(parts, digit_pred())
}

/// The extracted path, by dialect: cmd.exe's `where` prints its results
/// first, so the first non-blank line is taken; every other dialect is
/// scanned from the end for the last plausible path line.
pub open spec fn spec_extract_path(raw: Seq<char>, kind: ShellKind) -> Option<Seq<char>> {
    let ts = trimmed_lines(raw);
    match kind {
        ShellKind::Cmd => spec_first_nonblank(ts),
        ShellKind::Pwsh => spec_last_pwsh(ts),
        _ => spec_last_posix(ts),
    }
}

fn is_posix_path_line(t: &str) -> (r: bool)
    ensures
        r == posix_path_line(t@),
{
    t.unicode_len() > 0 && t.get_char(0) == '/'
}

fn is_pwsh_path_line(t: &str) -> (r: bool)
    ensures
        r == pwsh_path_line(t@),
{
    let n = t.unicode_len();
    if n > 0 && t.get_char(0) == '/' {
        return true;
    }
    if n >= 3 && t.get_char(1) == ':' {
        let u = t.get_char(0) as u32;
        (65 <= u && u <= 90) || (97 <= u && u <= 122)
    } else {
        false
    }
}

fn has_digit(t: &str) -> (r: bool)
    ensures
        r == digit_line(t@),
{
    let n = t.unicode_len();
    let mut i: usize = 0;
    while i < n
        invariant
            0 <= i <= n,
            n == t@.len(),
            forall|k: int| 0 <= k < i ==> !is_digit_char(t@[k]),
        decreases n - i,
    {
        let u = t.get_char(i) as u32;
        if 48 <= u && u <= 57 {
            return true;
        }
        i = i + 1;
    }
    false
}

/// Extract a file path from shell output, accounting for shell startup noise.
pub fn extract_path(raw: &str, kind: &ShellKind) -> (r: Option<String>)
    ensures
        r.deep_view() == spec_extract_path(raw@, *kind),
{
    let parts = split_lines(raw);
    let ghost ts = trimmed_lines(raw@);
    proof {
        assert(ts.len() == parts.deep_view().len());
    }
    match *kind {
        ShellKind::Cmd => {
            let mut i: usize = 0;
            while i < parts.len()
                invariant
                    *kind == ShellKind::Cmd,
                    0 <= i <= parts@.len(),
                    parts.deep_view() == spec_lines(raw@),
                    ts == trimmed_lines(raw@),
                    ts.len() == parts@.len(),
                    forall|k: int| 0 <= k < i ==> ts[k].len() == 0,
                decreases parts@.len() - i,
            {
                let t = trim_str(parts[i].as_str());
                proof {
                    assert(ts[i as int] == spec_trim(parts.deep_view()[i as int]));
                }
                if t.as_str().unicode_len() > 0 {
                    proof {
                        lemma_first_where_picks(ts, nonblank_pred(), i as int);
                    }
                    return Some(t);
                }
                i = i + 1;
            }
            proof {
                if spec_first_nonblank(ts) is Some {
                    lemma_first_nonblank_witness(ts);
                }
            }
            None
        },
        ShellKind::Pwsh => {
            let mut i: usize = parts.len();
            while i > 0
                invariant
                    *kind == ShellKind::Pwsh,
                    0 <= i <= parts@.len(),
                    parts.deep_view() == spec_lines(raw@),
                    ts == trimmed_lines(raw@),
                    ts.len() == parts@.len(),
                    forall|k: int| i <= k < ts.len() ==> !pwsh_path_line(ts[k]),
                decreases i,
            {
                let t = trim_str(parts[i - 1].as_str());
                proof {
                    assert(ts[i - 1] == spec_trim(parts.deep_view()[i - 1]));
                }
                if is_pwsh_path_line(t.as_str()) {
                    proof {
                        lemma_last_where_picks(ts, pwsh_pred(), i - 1);
                    }
                    return Some(t);
                }
                i = i - 1;
            }
            proof {
                if spec_last_pwsh(ts) is Some {
                    lemma_last_pwsh_witness(ts);
                }
            }
            None
        },
        _ => {
            let mut i: usize = parts.len();
            while i > 0
                invariant
                    *kind != ShellKind::Cmd && *kind != ShellKind::Pwsh,
                    0 <= i <= parts@.len(),
                    parts.deep_view() == spec_lines(raw@),
                    ts == trimmed_lines(raw@),
                    ts.len() == parts@.len(),
                    forall|k: int| i <= k < ts.len() ==> !posix_path_line(ts[k]),
                decreases i,
            {
                let t = trim_str(parts[i - 1].as_str());
                proof {
                    assert(ts[i - 1] == spec_trim(parts.deep_view()[i - 1]));
                }
                if is_posix_path_line(t.as_str()) {
                    proof {
                        lemma_last_where_picks(ts, posix_pred(), i - 1);
                    }
                    return Some(t);
                }
                i = i - 1;
            }
            proof {
                if spec_last_posix(ts) is Some {
                    lemma_last_posix_witness(ts);
                }
            }
            None
        },
    }
}

proof fn lemma_last_where_none(parts: Seq<Seq<char>>, p: spec_fn(Seq<char>) -> bool)
    requires
        forall|k: int| 0 <= k < parts.len() ==> !p(parts[k]),
    ensures
        last_where(parts, p) is None,
    decreases parts.len(),
{
    if parts.len() > 0 {
        let t = parts.drop_last();
        assert(forall|k: int| 0 <= k < t.len() ==> t[k] == parts[k]);
        lemma_last_where_none(t, p);
    }
}

proof fn lemma_first_where_none(parts: Seq<Seq<char>>, p: spec_fn(Seq<char>) -> bool)
    requires
        forall|k: int| 0 <= k < parts.len() ==> !p(parts[k]),
    ensures
        first_where(parts, p) is None,
    decreases parts.len(),
{
    if parts.len() > 0 {
        let t = parts.drop_first();
        assert(forall|k: int| 0 <= k < t.len() ==> t[k] == parts[k + 1]);
        lemma_first_where_none(t, p);
    }
}

proof fn lemma_last_posix_witness(ts: Seq<Seq<char>>)
    requires
        forall|k: int| 0 <= k < ts.len() ==> !posix_path_line(ts[k]),
    ensures
        spec_last_posix(ts) is None,
{
    lemma_last_where_none(ts, posix_pred());
}

proof fn lemma_last_pwsh_witness(ts: Seq<Seq<char>>)
    requires
        forall|k: int| 0 <= k < ts.len() ==> !pwsh_path_line(ts[k]),
    ensures
        spec_last_pwsh(ts) is None,
{
    lemma_last_where_none(ts, pwsh_pred());
}

proof fn lemma_first_nonblank_witness(ts: Seq<Seq<char>>)
    requires
        forall|k: int| 0 <= k < ts.len() ==> ts[k].len() == 0,
    ensures
        spec_first_nonblank(ts) is None,
{
    lemma_first_where_none(ts, nonblank_pred());
}

/// The extracted version string: the last line holding a decimal digit,
/// trimmed; with no such line, the literal last line, trimmed.
pub open spec fn spec_extract_version(raw: Seq<char>) -> Seq<char> {
    let parts = spec_lines(raw);
    match spec_last_digit(parts) {
        Some(l) => spec_trim(l),
        None => spec_trim(parts.last()),
    }
}

/// Extract a version string from `--version` output, accounting for shell
/// startup noise.
pub fn extract_version(raw: &str) -> (r: String)
    ensures
        r@ == spec_extract_version(raw@),
{
    let parts = split_lines(raw);
    proof {
        lemma_split_nonempty(raw@, '\n');
    }
    let mut i: usize = parts.len();
    while i > 0
        invariant
            0 <= i <= parts@.len(),
            parts.deep_view() == spec_lines(raw@),
            forall|k: int| i <= k < parts@.len() ==> !digit_line(parts.deep_view()[k]),
        decreases i,
    {
        let l = &parts[i - 1];
        if has_digit(l.as_str()) {
            proof {
                lemma_last_where_picks(parts.deep_view(), digit_pred(), i - 1);
            }
            return trim_str(l.as_str());
        }
        i = i - 1;
    }
    proof {
        lemma_last_where_none(parts.deep_view(), digit_pred());
    }
    let last = &parts[parts.len() - 1];
    trim_str(last.as_str())
}

/// Law: when exactly one line of the output trims to something starting
/// with `/`, extraction under any backward-scanning dialect (every dialect
/// but cmd.exe) returns that trimmed line, however many banner lines
/// surround it.
pub proof fn lemma_sole_path_line_extracted(raw: Seq<char>, kind: ShellKind, i: int)
    requires
        kind != ShellKind::Cmd,
        0 <= i < trimmed_lines(raw).len(),
        posix_path_line(trimmed_lines(raw)[i]),
        forall|j: int|
            0 <= j < trimmed_lines(raw).len() && j != i ==> !pwsh_path_line(trimmed_lines(raw)[j]),
    ensures
        spec_extract_path(raw, kind) == Some(trimmed_lines(raw)[i]),
{
    let ts = trimmed_lines(raw);
    if kind == ShellKind::Pwsh {
        lemma_last_where_picks(ts, pwsh_pred(), i);
    } else {
        lemma_last_where_picks(ts, posix_pred(), i);
    }
}

/// Law: for PowerShell output, the backward scan returns the last line that
/// looks like a path — in particular a Windows drive-letter line is found
/// among decoy lines as long as no later line also looks like a path.
pub proof fn lemma_pwsh_drive_line_extracted(raw: Seq<char>, i: int)
    requires
        0 <= i < trimmed_lines(raw).len(),
        drive_path_line(trimmed_lines(raw)[i]),
        forall|j: int|
            i < j < trimmed_lines(raw).len() ==> !pwsh_path_line(trimmed_lines(raw)[j]),
    ensures
        spec_extract_path(raw, ShellKind::Pwsh) == Some(trimmed_lines(raw)[i]),
{
    let ts = trimmed_lines(raw);
    lemma_last_where_picks(ts, pwsh_pred(), i);
}

} // verus!
