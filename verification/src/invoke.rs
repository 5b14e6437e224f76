//! The shell invoker's decisions: which program to spawn with which
//! arguments for each dialect, how PATH augmentation is phrased, and which
//! part of a finished process's output counts as its result.
//!
//! Spawning itself is the caller's job: the planner hands out an
//! `InvocationPlan`, the caller runs it (primary first, the fallback only
//! when the primary fails), and hands the outcome back to `shell_exec`.

use vstd::prelude::*;

use crate::ShellKind;
use crate::dialect::{detect_shell_kind, spec_shell_kind};
use crate::host::{HostConfig, spec_user_shell, user_shell};
use crate::paths::{
    extra_path_dirs_unix, extra_path_dirs_windows, spec_extra_dirs_unix, spec_extra_dirs_windows,
};
use crate::text::{join_with, spec_join, spec_trim, trim_str};

verus! {

/// One process to spawn: a program and its arguments.
pub struct Invocation {
    pub program: String,
    pub args: Vec<String>,
}

impl View for Invocation {
    type V = (Seq<char>, Seq<Seq<char>>);

    open spec fn view(&self) -> Self::V {
        (self.program@, self.args.deep_view())
    }
}

/// A primary invocation, with an optional fallback to run only when the
/// primary fails (spawn failure or non-zero exit).
pub struct InvocationPlan {
    pub primary: Invocation,
    pub fallback: Option<Invocation>,
}

impl View for InvocationPlan {
    type V = ((Seq<char>, Seq<Seq<char>>), Option<(Seq<char>, Seq<Seq<char>>)>);

    open spec fn view(&self) -> Self::V {
        (
            self.primary@,
            match self.fallback {
                Some(f) => Some(f@),
                None => None,
            },
        )
    }
}

/// What a spawned process produced.
pub struct ShellExecOutcome {
    /// Whether the exit status reported success.
    pub success: bool,
    pub stdout: String,
    pub stderr: String,
}

/// The POSIX phrasing of a command with PATH augmentation:
/// `export PATH="<dirs, colon-joined>:$PATH"; <cmd>`.
pub open spec fn spec_posix_command(cmd: Seq<char>, extra: Seq<Seq<char>>) -> Seq<char> {
    "export PATH=\""@ + spec_join(extra, ":"@) + ":$PATH\"; "@ + cmd
}

/// The fish phrasing: `set -gx PATH <dirs, space-separated> $PATH; <cmd>`,
/// or the bare command when there is nothing to prepend.
pub open spec fn spec_fish_command(cmd: Seq<char>, extra: Seq<Seq<char>>) -> Seq<char> {
    let joined = spec_join(extra, " "@);
    if joined.len() == 0 {
        cmd
    } else {
        "set -gx PATH "@ + joined + " $PATH; "@ + cmd
    }
}

/// The PowerShell phrasing: `$env:PATH = '<dirs, colon-joined>' + ':' +
/// $env:PATH; <cmd>`, or the bare command when there is nothing to prepend.
pub open spec fn spec_pwsh_command(cmd: Seq<char>, extra: Seq<Seq<char>>) -> Seq<char> {
    let joined = spec_join(extra, ":"@);
    if joined.len() == 0 {
        cmd
    } else {
        "$env:PATH = '"@ + joined + "' + ':' + $env:PATH; "@ + cmd
    }
}

/// The cmd.exe phrasing: `set "PATH=<dirs, semicolon-joined>;%PATH%" &&
/// <cmd>`, or the bare command when there is nothing to prepend.
pub open spec fn spec_cmd_command(cmd: Seq<char>, extra: Seq<Seq<char>>) -> Seq<char> {
    let joined = spec_join(extra, ";"@);
    if joined.len() == 0 {
        cmd
    } else {
        "set \"PATH="@ + joined + ";%PATH%\" && "@ + cmd
    }
}

/// The planned invocation on Windows: always `cmd.exe /C`, with the extra
/// directories prepended through `set "PATH=..."` when there are any.
pub open spec fn spec_windows_invocation(cfg: &HostConfig, cmd: Seq<char>) -> (
    Seq<char>,
    Seq<Seq<char>>,
) {
    let extra = spec_extra_dirs_windows(cfg.userprofile.deep_view(), cfg.appdata.deep_view());
    ("cmd.exe"@, seq!["/C"@, spec_cmd_command(cmd, extra)])
}

/// Plan the Windows invocation of `cmd`.  Detection always uses `cmd.exe`:
/// `COMSPEC` names the command interpreter, not the user's terminal.
pub fn shell_exec_windows(cfg: &HostConfig, cmd: &str) -> (inv: Invocation)
    ensures
        inv@ == spec_windows_invocation(cfg, cmd@),
{
    let extra = extra_path_dirs_windows(&cfg.userprofile, &cfg.appdata);
    let joined = join_with(&extra, ";");
    let augmented = if joined.as_str().unicode_len() == 0 {
        String::from_str(cmd)
    } else {
        String::from_str("set \"PATH=").concat(joined.as_str()).concat(";%PATH%\" && ").concat(cmd)
    };
    let mut args: Vec<String> = Vec::new();
    args.push(String::from_str("/C"));
    args.push(augmented);
    let inv = Invocation { program: String::from_str("cmd.exe"), args };
    proof {
        assert(inv.args.deep_view() =~= spec_windows_invocation(cfg, cmd@).1);
    }
    inv
}

/// The planned invocations on a Unix-like host, by dialect:
///
/// | dialect | flags | PATH augmentation |
/// |---|---|---|
/// | POSIX (and anything unrecognized) | `-l -i -c` | `export PATH="..."` |
/// | fish | `-l -c` (fish rejects `-i` with `-c`) | `set -gx PATH ...` |
/// | PowerShell | `-Login -Command` | `$env:PATH = '...'` |
/// | Nushell | `-l -c`, trusting its own config; on failure fall back to `/bin/sh -l -c` with POSIX augmentation | fallback only |
pub open spec fn spec_unix_plan(cfg: &HostConfig, cmd: Seq<char>) -> (
    (Seq<char>, Seq<Seq<char>>),
    Option<(Seq<char>, Seq<Seq<char>>)>,
) {
    let shell = spec_user_shell(cfg);
    let extra = spec_extra_dirs_unix(cfg.home.deep_view());
    match spec_shell_kind(shell) {
        ShellKind::Fish => ((shell, seq!["-l"@, "-c"@, spec_fish_command(cmd, extra)]), None),
        ShellKind::Pwsh => (
            (shell, seq!["-Login"@, "-Command"@, spec_pwsh_command(cmd, extra)]),
            None,
        ),
        ShellKind::Nu => (
            (shell, seq!["-l"@, "-c"@, cmd]),
            Some(("/bin/sh"@, seq!["-l"@, "-c"@, spec_posix_command(cmd, extra)])),
        ),
        _ => ((shell, seq!["-l"@, "-i"@, "-c"@, spec_posix_command(cmd, extra)]), None),
    }
}

fn three_args(a: &str, b: &str, c: String) -> (r: Vec<String>)
    ensures
        r.deep_view() =~= seq![a@, b@, c@],
{
    let mut args: Vec<String> = Vec::new();
    args.push(String::from_str(a));
    args.push(String::from_str(b));
    args.push(c);
    args
}

fn four_args(a: &str, b: &str, c: &str, d: String) -> (r: Vec<String>)
    ensures
        r.deep_view() =~= seq![a@, b@, c@, d@],
{
    let mut args: Vec<String> = Vec::new();
    args.push(String::from_str(a));
    args.push(String::from_str(b));
    args.push(String::from_str(c));
    args.push(d);
    args
}

/// Plan the Unix invocation of `cmd` in the user's shell, with
/// dialect-correct flags and PATH augmentation.
pub fn shell_exec_unix(cfg: &HostConfig, cmd: &str) -> (plan: InvocationPlan)
    ensures
        plan@ == spec_unix_plan(cfg, cmd@),
{
    let shell = user_shell(cfg);
    let kind = detect_shell_kind(shell.as_str());
    let extra = extra_path_dirs_unix(&cfg.home);
    match kind {
        ShellKind::Fish => {
            let joined = join_with(&extra, " ");
            let augmented = if joined.as_str().unicode_len() == 0 {
                String::from_str(cmd)
            } else {
                String::from_str("set -gx PATH ").concat(joined.as_str()).concat(
                    " $PATH; ",
                ).concat(cmd)
            };
            InvocationPlan {
                primary: Invocation { program: shell, args: three_args("-l", "-c", augmented) },
                fallback: None,
            }
        },
        ShellKind::Pwsh => {
            let joined = join_with(&extra, ":");
            let augmented = if joined.as_str().unicode_len() == 0 {
                String::from_str(cmd)
            } else {
                String::from_str("$env:PATH = '").concat(joined.as_str()).concat(
                    "' + ':' + $env:PATH; ",
                ).concat(cmd)
            };
            InvocationPlan {
                primary: Invocation {
                    program: shell,
                    args: three_args("-Login", "-Command", augmented),
                },
                fallback: None,
            }
        },
        ShellKind::Nu => {
            let joined = join_with(&extra, ":");
            let augmented = String::from_str("export PATH=\"").concat(joined.as_str()).concat(
                ":$PATH\"; ",
            ).concat(cmd);
            InvocationPlan {
                primary: Invocation {
                    program: shell,
                    args: three_args("-l", "-c", String::from_str(cmd)),
                },
                fallback: Some(
                    Invocation {
                        program: String::from_str("/bin/sh"),
                        args: three_args("-l", "-c", augmented),
                    },
                ),
            }
        },
        _ => {
            let joined = join_with(&extra, ":");
            let augmented = String::from_str("export PATH=\"").concat(joined.as_str()).concat(
                ":$PATH\"; ",
            ).concat(cmd);
            InvocationPlan {
                primary: Invocation {
                    program: shell,
                    args: four_args("-l", "-i", "-c", augmented),
                },
                fallback: None,
            }
        },
    }
}

/// The planned invocation(s) of `cmd` on the configured host.
pub open spec fn spec_exec_plan(cfg: &HostConfig, cmd: Seq<char>) -> (
    (Seq<char>, Seq<Seq<char>>),
    Option<(Seq<char>, Seq<Seq<char>>)>,
) {
    if cfg.windows {
        (spec_windows_invocation(cfg, cmd), None)
    } else {
        spec_unix_plan(cfg, cmd)
    }
}

/// Plan how to run `cmd` inside the user's login shell so that the user's
/// PATH and shell configuration are honored.
pub fn plan_shell_exec(cfg: &HostConfig, cmd: &str) -> (plan: InvocationPlan)
    ensures
        plan@ == spec_exec_plan(cfg, cmd@),
{
    if cfg.windows {
        InvocationPlan { primary: shell_exec_windows(cfg, cmd), fallback: None }
    } else {
        shell_exec_unix(cfg, cmd)
    }
}

/// Whether the fallback invocation should be run: only when the primary
/// could not be spawned or exited unsuccessfully.
pub fn use_fallback(primary: &Option<ShellExecOutcome>) -> (r: bool)
    ensures
        r == !(primary matches Some(o) && o.success),
{
    match primary {
        Some(o) => !o.success,
        None => true,
    }
}

/// The text a finished invocation yields: on success, trimmed stdout,
/// falling back to trimmed stderr when stdout is blank, and nothing when
/// both are; on failure, nothing — error text must never pass for a result.
pub open spec fn spec_interpret(success: bool, out: Seq<char>, err: Seq<char>) -> Option<
    Seq<char>,
> {
    if !success {
        None
    } else if spec_trim(out).len() > 0 {
        Some(spec_trim(out))
    } else if spec_trim(err).len() > 0 {
        Some(spec_trim(err))
    } else {
        None
    }
}

/// Reduce the outcome of a shell invocation (`None` when the process could
/// not even be spawned) to its usable output, if any.
pub fn shell_exec(outcome: &Option<ShellExecOutcome>) -> (r: Option<String>)
    ensures
        r.deep_view() == match outcome {
            Some(o) => spec_interpret(o.success, o.stdout@, o.stderr@),
            None => None::<Seq<char>>,
        },
{
    match outcome {
        None => None,
        Some(o) => {
            if !o.success {
                None
            } else {
                let out = trim_str(o.stdout.as_str());
                if out.as_str().unicode_len() > 0 {
                    Some(out)
                } else {
                    let err = trim_str(o.stderr.as_str());
                    if err.as_str().unicode_len() > 0 {
                        Some(err)
                    } else {
                        None
                    }
                }
            }
        },
    }
}

} // verus!
