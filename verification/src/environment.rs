//! The informational operations the presentation layer calls at startup:
//! what host this is, which shell it uses, and which shell an interactive
//! terminal session should spawn.

use vstd::prelude::*;

use crate::dialect::{detect_shell_kind, kind_label, spec_kind_label, spec_shell_kind};
use crate::host::{HostConfig, opt_or, spec_user_shell, user_shell};
use crate::paths::{
    extra_path_dirs_unix, extra_path_dirs_windows, spec_extra_dirs_unix, spec_extra_dirs_windows,
};
use crate::text::{contains_sub, lower_str, spec_contains, spec_lower};

verus! {

/// The detected runtime environment, for display in the detection log.
pub struct EnvironmentInfo {
    pub os: String,
    pub arch: String,
    pub shell_path: String,
    pub shell_kind: String,
    pub extra_dirs: Vec<String>,
}

/// The extra PATH directories for the configured platform.
pub open spec fn spec_extra_dirs(cfg: &HostConfig) -> Seq<Seq<char>> {
    if cfg.windows {
        spec_extra_dirs_windows(cfg.userprofile.deep_view(), cfg.appdata.deep_view())
    } else {
        spec_extra_dirs_unix(cfg.home.deep_view())
    }
}

/// Build the extra PATH directories for the configured platform.
pub fn extra_path_dirs(cfg: &HostConfig) -> (dirs: Vec<String>)
    ensures
        dirs.deep_view() == spec_extra_dirs(cfg),
{
    if cfg.windows {
        extra_path_dirs_windows(&cfg.userprofile, &cfg.appdata)
    } else {
        extra_path_dirs_unix(&cfg.home)
    }
}

/// Describe the runtime environment: the platform, the user's shell and its
/// dialect, and the extra search directories.
pub fn detect_environment(cfg: &HostConfig) -> (r: EnvironmentInfo)
    ensures
        r.os@ == cfg.os@ + " "@ + cfg.arch@,
        r.arch@ == cfg.arch@,
        r.shell_path@ == spec_user_shell(cfg),
        r.shell_kind@ == spec_kind_label(spec_shell_kind(spec_user_shell(cfg))),
        r.extra_dirs.deep_view() == spec_extra_dirs(cfg),
{
    let shell_path = user_shell(cfg);
    let kind = detect_shell_kind(shell_path.as_str());
    EnvironmentInfo {
        os: cfg.os.clone().concat(" ").concat(cfg.arch.as_str()),
        arch: cfg.arch.clone(),
        shell_path,
        shell_kind: kind_label(&kind),
        extra_dirs: extra_path_dirs(cfg),
    }
}

/// Which shell an interactive terminal session should spawn, with which
/// flags.  Distinct from detection: here Windows defaults to PowerShell and
/// gets `-NoLogo` when `COMSPEC` names a PowerShell, while Unix shells are
/// started as login shells.
pub struct PlatformShell {
    pub os: String,
    pub shell: String,
    pub interactive_args: Vec<String>,
}

/// The shell an interactive session uses: `COMSPEC` falling back to
/// `powershell.exe` on Windows, `SHELL` falling back to `/bin/sh` elsewhere.
pub open spec fn spec_platform_shell(cfg: &HostConfig) -> Seq<char> {
    if cfg.windows {
        opt_or(cfg.comspec.deep_view(), "powershell.exe"@)
    } else {
        opt_or(cfg.shell.deep_view(), "/bin/sh"@)
    }
}

/// The flags an interactive session passes: `-NoLogo` when a Windows shell
/// names a PowerShell, `--login` on Unix, nothing otherwise.
pub open spec fn spec_interactive_args(cfg: &HostConfig) -> Seq<Seq<char>> {
    if cfg.windows {
        let lowered = spec_lower(spec_platform_shell(cfg));
        if spec_contains(lowered, "powershell"@) || spec_contains(lowered, "pwsh"@) {
            seq!["-NoLogo"@]
        } else {
            Seq::empty()
        }
    } else {
        seq!["--login"@]
    }
}

/// Tell the terminal-spawning collaborator which shell and flags to use for
/// an interactive session.
pub fn get_platform_shell(cfg: &HostConfig) -> (r: PlatformShell)
    ensures
        r.os@ == cfg.os@,
        r.shell@ == spec_platform_shell(cfg),
        r.interactive_args.deep_view() == spec_interactive_args(cfg),
{
    let os = cfg.os.clone();
    if cfg.windows {
        let shell = match &cfg.comspec {
            Some(c) => c.clone(),
            None => String::from_str("powershell.exe"),
        };
        let lowered = lower_str(shell.as_str());
        let mut interactive_args: Vec<String> = Vec::new();
        if contains_sub(lowered.as_str(), "powershell") || contains_sub(lowered.as_str(), "pwsh") {
            interactive_args.push(String::from_str("-NoLogo"));
            proof {
                assert(interactive_args.deep_view() =~= spec_interactive_args(cfg));
            }
        } else {
            proof {
                assert(interactive_args.deep_view() =~= spec_interactive_args(cfg));
            }
        }
        PlatformShell { os, shell, interactive_args }
    } else {
        let shell = match &cfg.shell {
            Some(s) => s.clone(),
            None => String::from_str("/bin/sh"),
        };
        let mut interactive_args: Vec<String> = Vec::new();
        interactive_args.push(String::from_str("--login"));
        proof {
            assert(interactive_args.deep_view() =~= spec_interactive_args(cfg));
        }
        PlatformShell { os, shell, interactive_args }
    }
}

} // verus!
