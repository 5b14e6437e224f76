//! Shell and environment resolution: classify the user's shell, plan
//! dialect-correct command invocations, extract meaningful lines from noisy
//! shell output, and decide whether a command-line tool is installed.
//!
//! All logic here is pure: the ambient host state (environment variables,
//! platform) is injected by the caller, and the results of process spawns
//! are handed in as plain values.

use vstd::prelude::*;

pub mod config;
pub mod detect;
pub mod dialect;
pub mod envmap;
pub mod environment;
pub mod extract;
pub mod host;
pub mod invoke;
pub mod paths;
pub mod text;
pub mod web;

verus! {

/// The five recognized shell command-language dialects.  The dialect decides
/// both the invocation flags and the output-extraction rule.
#[derive(Clone, Copy, Debug, PartialEq, Eq, Structural)]
pub enum ShellKind {
    /// POSIX-compatible shells: bash, zsh, sh, dash, ash, ksh, and the like.
    Posix,
    /// Fish: uses `set -gx`, and rejects `-i` combined with `-c`.
    Fish,
    /// PowerShell: `pwsh` on Unix, `powershell.exe` on Windows.
    Pwsh,
    /// Nushell: its own startup config is trusted to set PATH.
    Nu,
    /// Windows `cmd.exe`.
    Cmd,
}

} // verus!
