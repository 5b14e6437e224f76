//! Tool detection: decide whether a command-line tool is installed, where,
//! and in which version, with a two-tier strategy — ask the user's shell
//! first, then search the filesystem directly.
//!
//! The shell tier and the version lookup spawn processes, which the caller
//! does: it runs the planned locate command, hands the usable output (or its
//! absence) to `detect_tool`, and, when a tool was found, runs the version
//! command and hands its output to `attach_version`.

use vstd::prelude::*;

use crate::ShellKind;
use crate::dialect::spec_shell_kind;
use crate::extract::{extract_path, extract_version, spec_extract_path, spec_extract_version};
use crate::host::{HostConfig, opt_or, spec_user_shell, user_shell};
use crate::dialect::detect_shell_kind;
use crate::paths::{
    extra_path_dirs_unix, extra_path_dirs_windows, spec_extra_dirs_unix, spec_extra_dirs_windows,
};
use crate::text::{join_with, spec_join};

verus! {

/// Which lookup tier produced a tool's resolved path.
#[derive(Clone, Copy, Debug, PartialEq, Eq, Structural)]
pub enum FoundVia {
    /// The user's shell resolved the command.
    Shell,
    /// The direct filesystem search resolved it.
    Direct,
    /// Neither tier found it.
    NotFound,
}

/// The display name of a discovery method.
pub open spec fn spec_found_via_label(v: FoundVia) -> Seq<char> {
    match v {
        FoundVia::Shell => "shell"@,
        FoundVia::Direct => "direct"@,
        FoundVia::NotFound => "not_found"@,
    }
}

/// Name a discovery method for display.
pub fn found_via_label(v: &FoundVia) -> (r: String)
    ensures
        r@ == spec_found_via_label(*v),
{
    match v {
        FoundVia::Shell => String::from_str("shell"),
        FoundVia::Direct => String::from_str("direct"),
        FoundVia::NotFound => String::from_str("not_found"),
    }
}

/// The answer to one detection request.
#[derive(Debug, PartialEq)]
pub struct ToolDetection {
    pub command: String,
    pub installed: bool,
    pub version: Option<String>,
    pub path: Option<String>,
    pub found_via: FoundVia,
}

/// The invariant every detection result satisfies: a tool is installed
/// exactly when a path was resolved, an uninstalled tool carries neither
/// path nor version, and the discovery method says `shell` or `direct`
/// exactly for installed tools.
pub open spec fn detection_wf(d: &ToolDetection) -> bool {
    &&& d.installed <==> d.path is Some
    &&& !d.installed ==> d.version is None
    &&& (d.found_via == FoundVia::Shell || d.found_via == FoundVia::Direct) <==> d.installed
}

/// The dialect used for detection: always Cmd on Windows (`COMSPEC` names
/// the command interpreter), the user's shell dialect elsewhere.
pub open spec fn spec_detection_kind(cfg: &HostConfig) -> ShellKind {
    if cfg.windows {
        ShellKind::Cmd
    } else {
        spec_shell_kind(spec_user_shell(cfg))
    }
}

/// Resolve which dialect tool detection speaks on this host.
pub fn detection_kind(cfg: &HostConfig) -> (k: ShellKind)
    ensures
        k == spec_detection_kind(cfg),
{
    if cfg.windows {
        ShellKind::Cmd
    } else {
        let shell = user_shell(cfg);
        detect_shell_kind(shell.as_str())
    }
}

/// The dialect-appropriate command that locates `cmd`: `where` under
/// cmd.exe, `Get-Command` under PowerShell (which has no `which`), and
/// `which` everywhere else (built-in or external in POSIX shells, fish and
/// Nushell alike).
pub open spec fn spec_locate_command(kind: ShellKind, cmd: Seq<char>) -> Seq<char> {
    match kind {
        ShellKind::Cmd => "where "@ + cmd,
        ShellKind::Pwsh => "(Get-Command "@ + cmd + " -ErrorAction SilentlyContinue).Source"@,
        _ => "which "@ + cmd,
    }
}

/// Build the locate command for `cmd` under `kind`.
pub fn locate_command(kind: &ShellKind, cmd: &str) -> (r: String)
    ensures
        r@ == spec_locate_command(*kind, cmd@),
{
    match kind {
        ShellKind::Cmd => String::from_str("where ").concat(cmd),
        ShellKind::Pwsh => String::from_str("(Get-Command ").concat(cmd).concat(
            " -ErrorAction SilentlyContinue).Source",
        ),
        _ => String::from_str("which ").concat(cmd),
    }
}

/// The command that asks `cmd` for its version.
pub open spec fn spec_version_command(cmd: Seq<char>) -> Seq<char> {
    cmd + " --version"@
}

/// Build the version command for `cmd`.
pub fn version_command(cmd: &str) -> (r: String)
    ensures
        r@ == spec_version_command(cmd@),
{
    String::from_str(cmd).concat(" --version")
}

/// The search list for the direct tier: the extra directories first (so
/// freshly installed tools win even before the process PATH is refreshed),
/// then the system PATH, joined with the platform's separator.
pub open spec fn spec_merged_search_path(cfg: &HostConfig) -> Seq<char> {
    if cfg.windows {
        spec_join(
            spec_extra_dirs_windows(cfg.userprofile.deep_view(), cfg.appdata.deep_view()),
            ";"@,
        ) + ";"@ + opt_or(cfg.path_var.deep_view(), ""@)
    } else {
        spec_join(spec_extra_dirs_unix(cfg.home.deep_view()), ":"@) + ":"@ + opt_or(
            cfg.path_var.deep_view(),
            ""@,
        )
    }
}

/// Build the merged search list for the direct tier.
pub fn merged_search_path(cfg: &HostConfig) -> (r: String)
    ensures
        r@ == spec_merged_search_path(cfg),
{
    let sys = match &cfg.path_var {
        Some(p) => p.clone(),
        None => String::new(),
    };
    proof {
        reveal_strlit("");
        assert(""@ =~= Seq::<char>::empty());
    }
    if cfg.windows {
        let extra = extra_path_dirs_windows(&cfg.userprofile, &cfg.appdata);
        join_with(&extra, ";").concat(";").concat(sys.as_str())
    } else {
        let extra = extra_path_dirs_unix(&cfg.home);
        join_with(&extra, ":").concat(":").concat(sys.as_str())
    }
}

/// Relies on `which::which_in`: searches the PATH-style list `paths` for an
/// executable named `binary`, applying the platform's resolution rules
/// (Windows extension suffixes, the Unix execute bit), and returns the first
/// match.  The result depends on what is on disk, so nothing is promised of
/// it.
#[verifier::external_body]
fn which_in_path(binary: &str, paths: &str) -> (r: Option<String>) {
    match which::which_in(binary, Some(paths), ".") {
        Ok(p) => Some(p.to_string_lossy().to_string()),
        Err(_) => None,
    }
}

/// Search for `binary` directly on the merged search list, bypassing the
/// shell.  Immune to shell startup noise, but blind to aliases and shell
/// functions; used only as the fallback tier.  The result depends on the
/// filesystem.
pub fn find_binary_direct(binary: &str, cfg: &HostConfig) -> Option<String> {
    let merged = merged_search_path(cfg);
    which_in_path(binary, merged.as_str())
}

/// What the two lookup tiers yield: the shell tier's path wins; otherwise
/// the direct tier's; otherwise the tool is not installed.
pub open spec fn spec_resolve(
    shell_path: Option<Seq<char>>,
    direct: Option<Seq<char>>,
) -> (bool, Option<Seq<char>>, FoundVia) {
    match shell_path {
        Some(p) => (true, Some(p), FoundVia::Shell),
        None => match direct {
            Some(p) => (true, Some(p), FoundVia::Direct),
            None => (false, None::<Seq<char>>, FoundVia::NotFound),
        },
    }
}

/// Assemble a detection result from the two tiers' findings; the version is
/// left empty for `attach_version`.
pub fn resolve_detection(
    command: String,
    shell_path: Option<String>,
    direct: Option<String>,
) -> (r: ToolDetection)
    ensures
        detection_wf(&r),
        r.command == command,
        r.version is None,
        (r.installed, r.path.deep_view(), r.found_via) == spec_resolve(
            shell_path.deep_view(),
            direct.deep_view(),
        ),
{
    match shell_path {
        Some(p) => ToolDetection {
            command,
            installed: true,
            version: None,
            path: Some(p),
            found_via: FoundVia::Shell,
        },
        None => match direct {
            Some(p) => ToolDetection {
                command,
                installed: true,
                version: None,
                path: Some(p),
                found_via: FoundVia::Direct,
            },
            None => ToolDetection {
                command,
                installed: false,
                version: None,
                path: None,
                found_via: FoundVia::NotFound,
            },
        },
    }
}

/// The shell tier's finding: the path extracted from the locate command's
/// usable output, if there was any.
pub open spec fn spec_shell_finding(raw: Option<Seq<char>>, kind: ShellKind) -> Option<Seq<char>> {
    match raw {
        Some(r) => spec_extract_path(r, kind),
        None => None,
    }
}

/// Decide whether `command` is installed: take the path the shell tier
/// found in `shell_raw` (the usable output of the planned locate command,
/// `None` when it failed); only when that yields nothing, fall back to the
/// direct filesystem search.  The version is left empty: when the result
/// says installed, run the version command and finish with `attach_version`.
pub fn detect_tool(
    command: String,
    kind: &ShellKind,
    shell_raw: &Option<String>,
    cfg: &HostConfig,
) -> (r: ToolDetection)
    ensures
        detection_wf(&r),
        r.command == command,
        r.version is None,
        ({
            let finding = spec_shell_finding(shell_raw.deep_view(), *kind);
            &&& finding is Some ==> (r.installed, r.path.deep_view(), r.found_via) == spec_resolve(
                finding,
                None::<Seq<char>>,
            )
            &&& finding is None ==> (r.found_via == FoundVia::Direct <==> r.installed)
        }),
{
    let shell_path: Option<String> = match shell_raw {
        Some(raw) => extract_path(raw.as_str(), kind),
        None => None,
    };
    match shell_path {
        Some(p) => resolve_detection(command, Some(p), None),
        None => {
            let direct = find_binary_direct(command.as_str(), cfg);
            resolve_detection(command, None, direct)
        },
    }
}

/// Add the version tier's finding to a detection result: for an installed
/// tool whose version command produced usable output, the extracted version
/// string; an unparseable or missing version is no error, the field simply
/// stays empty.  An uninstalled tool never carries a version.
pub fn attach_version(det: ToolDetection, version_raw: &Option<String>) -> (r: ToolDetection)
    requires
        detection_wf(&det),
        det.version is None,
    ensures
        detection_wf(&r),
        r.command == det.command,
        r.installed == det.installed,
        r.path == det.path,
        r.found_via == det.found_via,
        det.installed ==> r.version.deep_view() == match version_raw.deep_view() {
            Some(v) => Some(spec_extract_version(v)),
            None => None::<Seq<char>>,
        },
        !det.installed ==> r.version is None,
{
    if det.installed {
        let version: Option<String> = match version_raw {
            Some(v) => Some(extract_version(v.as_str())),
            None => None,
        };
        ToolDetection { version, ..det }
    } else {
        det
    }
}

/// Law: a detection result is a function of the observations alone — two
/// detections that saw the same shell output and the same filesystem answer
/// agree, so repeating a detection under unchanged system state repeats its
/// result.
pub proof fn lemma_detection_deterministic(
    shell_path: Option<Seq<char>>,
    direct: Option<Seq<char>>,
    r1: (bool, Option<Seq<char>>, FoundVia),
    r2: (bool, Option<Seq<char>>, FoundVia),
)
    requires
        r1 == spec_resolve(shell_path, direct),
        r2 == spec_resolve(shell_path, direct),
    ensures
        r1 == r2,
{
}

} // verus!
