//! Configuration-path expansion: resolve a leading `~/` (or `~\`) against
//! the user's home directory.  Reading and writing the file itself is the
//! caller's job.

use vstd::prelude::*;

verus! {

/// Whether `path` opens with a tilde and a separator.
pub open spec fn spec_tilde_prefixed(path: Seq<char>) -> bool {
    path.len() >= 2 && path[0] == '~' && (path[1] == '/' || path[1] == '\\')
}

/// The expansion of `path`: with a known home directory, a leading `~/` or
/// `~\` is replaced by the home directory and a separator; otherwise the
/// path is returned unchanged.
pub open spec fn spec_expand_tilde(path: Seq<char>, home: Option<Seq<char>>) -> Seq<char> {
    match home {
        Some(h) => {
            if spec_tilde_prefixed(path) {
                h + path.subrange(1, path.len() as int)
            } else {
                path
            }
        },
        None => path,
    }
}

/// Expand a leading tilde in `path` against `home`.  The separator the path
/// wrote after the tilde is kept, so `~/x` joins with `/` and `~\x` with
/// `\`.
pub fn expand_tilde(path: &str, home: &Option<String>) -> (r: String)
    ensures
        r@ == spec_expand_tilde(path@, home.deep_view()),
{
    let n = path.unicode_len();
    match home {
        Some(h) => {
            if n >= 2 && path.get_char(0) == '~' && (path.get_char(1) == '/' || path.get_char(1)
                == '\\') {
                let rest = path.substring_char(1, n);
                h.clone().concat(rest)
            } else {
                String::from_str(path)
            }
        },
        None => String::from_str(path),
    }
}

} // verus!
