//! The host configuration: the ambient state (platform and environment
//! variables) that the engine reads, captured once by the caller and passed
//! in explicitly so that every operation is a function of plain values.

use vstd::prelude::*;

verus! {

/// A snapshot of the ambient host state.  `None` stands for a variable that
/// is unset or unreadable.
pub struct HostConfig {
    /// Whether the host is Windows (detection then always goes through
    /// `cmd.exe`, never the interactive terminal).
    pub windows: bool,
    /// The operating-system name, e.g. `linux`, `macos`, `windows`.
    pub os: String,
    /// The processor architecture, e.g. `x86_64`, `aarch64`.
    pub arch: String,
    /// `SHELL`.
    pub shell: Option<String>,
    /// `COMSPEC`.
    pub comspec: Option<String>,
    /// `HOME`.
    pub home: Option<String>,
    /// `USERPROFILE`.
    pub userprofile: Option<String>,
    /// `APPDATA`.
    pub appdata: Option<String>,
    /// `PATH`.
    pub path_var: Option<String>,
}

/// The string an optional variable falls back to when unset.
pub open spec fn opt_or(o: Option<Seq<char>>, dflt: Seq<char>) -> Seq<char> {
    match o {
        Some(s) => s,
        None => dflt,
    }
}

/// The user's login shell: `COMSPEC` falling back to `cmd.exe` on Windows,
/// `SHELL` falling back to `/bin/sh` elsewhere.
pub open spec fn spec_user_shell(cfg: &HostConfig) -> Seq<char> {
    if cfg.windows {
        opt_or(cfg.comspec.deep_view(), "cmd.exe"@)
    } else {
        opt_or(cfg.shell.deep_view(), "/bin/sh"@)
    }
}

/// Get the user's login shell with platform-appropriate fallbacks.
pub fn user_shell(cfg: &HostConfig) -> (r: String)
    ensures
        r@ == spec_user_shell(cfg),
{
    if cfg.windows {
        match &cfg.comspec {
            Some(c) => c.clone(),
            None => String::from_str("cmd.exe"),
        }
    } else {
        match &cfg.shell {
            Some(s) => s.clone(),
            None => String::from_str("/bin/sh"),
        }
    }
}

} // verus!
