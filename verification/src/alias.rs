//! Resolving the default-version alias entry.
//!
//! The tool records which installed version is the default as a filesystem
//! entry `aliases/default` inside its data directory: a symbolic link on
//! POSIX systems, sometimes a plain file on Windows. The caller reads the
//! entry and hands it in as a plain value; what version it names is decided
//! here: the final path segment of a link target, the trimmed contents of a
//! file, and the sentinel `none` when the entry is absent or empty.

use vstd::prelude::*;
use vstd::string::*;

use crate::platform::{path_sep, spec_path_sep, PlatformProfile};
use crate::text::{
    lemma_find_c_none, lemma_find_c_props, spec_find_c, spec_strip_end_c, spec_trim, strip_end_c,
    trim_ws,
};

verus! {

/// What the filesystem holds at the alias entry.
pub enum AliasEntry {
    /// The entry does not exist.
    Absent,
    /// The entry is a symbolic link with the given target path.
    Symlink { target: String },
    /// The entry is a regular file with the given contents.
    File { content: String },
}

/// The segment of `s` after its last occurrence of `sep`; all of `s` when
/// `sep` does not occur.
pub open spec fn spec_after_last(s: Seq<char>, sep: char) -> Seq<char>
    decreases s.len(),
    via spec_after_last_dec
{
    match spec_find_c(s, sep) {
        None => s,
        Some(i) => spec_after_last(s.subrange(i + 1, s.len() as int), sep),
    }
}

#[via_fn]
proof fn spec_after_last_dec(s: Seq<char>, sep: char) {
    lemma_find_c_props(s, sep);
}

proof fn lemma_after_last_from_witness(s: Seq<char>, sep: char, j: int)
    requires
        0 <= j <= s.len(),
        forall|k: int| j <= k < s.len() ==> s[k] != sep,
        j > 0 ==> s[j - 1] == sep,
    ensures
        spec_after_last(s, sep) == s.subrange(j, s.len() as int),
    decreases s.len(),
{
    if j == 0 {
        lemma_find_c_none(s, sep);
        assert(s.subrange(0, s.len() as int) =~= s);
    } else {
        lemma_find_c_props(s, sep);
        match spec_find_c(s, sep) {
            None => {
                assert(s[j - 1] == sep);
                assert(false);
            },
            Some(i) => {
                assert(i <= j - 1);
                let t = s.subrange(i + 1, s.len() as int);
                assert forall|k: int| j - i - 1 <= k < t.len() implies t[k] != sep by {
                    assert(t[k] == s[k + i + 1]);
                }
                if j - i - 1 > 0 {
                    assert(t[j - i - 2] == s[j - 1]);
                }
                lemma_after_last_from_witness(t, sep, j - i - 1);
                assert(t.subrange(j - i - 1, t.len() as int) =~= s.subrange(j, s.len() as int));
            },
        }
    }
}

/// The final path segment of `s` under the separator `sep`: trailing
/// separators are ignored, then everything after the last remaining
/// separator is taken.
pub open spec fn spec_last_segment(s: Seq<char>, sep: char) -> Seq<char> {
    spec_after_last(spec_strip_end_c(s, sep), sep)
}

/// Extracts the final path segment of a path.
pub fn last_path_segment(path: &str, profile: PlatformProfile) -> (r: String)
    ensures
        r@ == spec_last_segment(path@, spec_path_sep(profile)),
{
    let sep = path_sep(profile);
    let stripped = strip_end_c(path, sep);
    let s = stripped.as_str();
    let n = s.unicode_len();
    let mut j: usize = n;
    while j > 0 && s.get_char(j - 1) != sep
        invariant
            0 <= j <= n,
            n == s@.len(),
            forall|k: int| j <= k < n ==> s@[k] != sep,
        decreases j,
    {
        j = j - 1;
    }
    proof {
        lemma_after_last_from_witness(s@, sep, j as int);
    }
    let out = s.substring_char(j, n);
    String::from_str(out)
}

/// The version named by the alias entry: `none` when the entry is absent,
/// the trimmed contents when it is a plain file, and the final path segment
/// of the target when it is a symbolic link (`none` again when that segment
/// is empty).
pub open spec fn spec_resolve_default(e: AliasEntry, p: PlatformProfile) -> Seq<char> {
    match e {
        AliasEntry::Absent => "none"@,
        AliasEntry::File { content } => spec_trim(content@),
        AliasEntry::Symlink { target } => {
            let seg = spec_last_segment(target@, spec_path_sep(p));
            if seg.len() == 0 {
                "none"@
            } else {
                seg
            }
        },
    }
}

/// Resolves the default-version alias entry to a version identifier.
pub fn resolve_default_version(entry: &AliasEntry, profile: PlatformProfile) -> (r: String)
    ensures
        r@ == spec_resolve_default(*entry, profile),
{
    match entry {
        AliasEntry::Absent => String::from_str("none"),
        AliasEntry::File { content } => trim_ws(content.as_str()),
        AliasEntry::Symlink { target } => {
            let seg = last_path_segment(target.as_str(), profile);
            if seg.as_str().unicode_len() == 0 {
                String::from_str("none")
            } else {
                seg
            }
        },
    }
}

/// Whether corepack is enabled for the default version: the alias must be a
/// symbolic link to an installed version, and the probe of its `bin`
/// directory must have found a `yarn` or a `pnpm` entry (corepack creates
/// them when enabled).
pub fn check_corepack_enabled(entry: &AliasEntry, yarn_exists: bool, pnpm_exists: bool) -> (r:
    bool)
    ensures
        r == ((entry is Symlink) && (yarn_exists || pnpm_exists)),
{
    match entry {
        AliasEntry::Symlink { .. } => yarn_exists || pnpm_exists,
        _ => false,
    }
}

} // verus!
