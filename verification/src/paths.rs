//! Path strings: home-directory substitution and the sidecar name under which
//! displaced content is kept.

use vstd::prelude::*;
use vstd::string::*;

verus! {

/// The name under which content found at `path` is set aside before it is removed.
pub open spec fn sidecar(path: Seq<char>) -> Seq<char> {
    path + ".old-config-mapper"@
}

/// The base directory that stands for `~`: the home directory when it is known,
/// the placeholder `UNKNOWN` otherwise.
pub open spec fn base_directory(home: Option<Seq<char>>) -> Seq<char> {
    match home {
        Some(dir) => dir,
        None => "UNKNOWN"@,
    }
}

/// `path` with a leading `~` replaced by `base`. A `~` anywhere else is part
/// of the name and is kept, and so is a path that does not start with `~`.
pub open spec fn tilde_expanded(path: Seq<char>, base: Seq<char>) -> Seq<char> {
    if path.len() > 0 && path[0] == '~' {
        base + path.subrange(1, path.len() as int)
    } else {
        path
    }
}

/// Builds the sidecar name of `path`.
pub fn sidecar_path(path: &str) -> (aside: String)
    ensures
        aside@ == sidecar(path@),
{
    let owned = String::from_str(path);
    owned.concat(".old-config-mapper")
}

/// Resolves the base directory once, before any path is expanded.
pub fn resolve_base(home: Option<String>) -> (base: String)
    ensures
        base@ == base_directory(
            match home {
                Some(dir) => Some(dir@),
                None => None,
            },
        ),
{
    match home {
        Some(dir) => dir,
        None => String::from_str("UNKNOWN"),
    }
}

/// Replaces a leading `~` in `path` by `base`.
pub fn expand_tilde(path: &str, base: &str) -> (expanded: String)
    ensures
        expanded@ == tilde_expanded(path@, base@),
{
    let length: usize = path.unicode_len();
    if length > 0 && path.get_char(0) == '~' {
        String::from_str(base).concat(path.substring_char(1, length))
    } else {
        String::from_str(path)
    }
}

} // verus!
