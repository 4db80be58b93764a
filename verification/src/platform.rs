//! The platform profile: the one value that stands for every compile-time
//! operating-system switch of the shell. Each component takes it as a plain
//! parameter instead of branching on the build target.

use vstd::prelude::*;
use vstd::string::*;

use crate::text::str_eq;

verus! {

/// The operating systems the shell distinguishes.
#[derive(Clone, Copy, PartialEq, Eq, Structural, Debug)]
pub enum PlatformProfile {
    MacOs,
    Linux,
    Windows,
}

/// The character that separates entries of the `PATH` variable.
pub open spec fn spec_path_list_sep(p: PlatformProfile) -> char {
    if p is Windows {
        ';'
    } else {
        ':'
    }
}

/// The character that separates path components.
pub open spec fn spec_path_sep(p: PlatformProfile) -> char {
    if p is Windows {
        '\\'
    } else {
        '/'
    }
}

pub fn path_list_sep(p: PlatformProfile) -> (c: char)
    ensures
        c == spec_path_list_sep(p),
{
    if matches!(p, PlatformProfile::Windows) {
        ';'
    } else {
        ':'
    }
}

pub fn path_sep(p: PlatformProfile) -> (c: char)
    ensures
        c == spec_path_sep(p),
{
    if matches!(p, PlatformProfile::Windows) {
        '\\'
    } else {
        '/'
    }
}

/// The path-component separator as a one-character string.
pub fn path_sep_str(p: PlatformProfile) -> (r: &'static str)
    ensures
        r@ == seq![spec_path_sep(p)],
{
    if matches!(p, PlatformProfile::Windows) {
        proof {
            reveal_strlit("\\");
        }
        "\\"
    } else {
        proof {
            reveal_strlit("/");
        }
        "/"
    }
}

/// The architecture token the shell reports for a build-target architecture
/// name: `x86_64` becomes `x64`, `aarch64` becomes `arm64`, anything else is
/// `unknown`.
pub open spec fn spec_arch_token(target: Seq<char>) -> Seq<char> {
    if target == "x86_64"@ {
        "x64"@
    } else if target == "aarch64"@ {
        "arm64"@
    } else {
        "unknown"@
    }
}

pub fn get_system_arch(target: &str) -> (r: String)
    ensures
        r@ == spec_arch_token(target@),
{
    if str_eq(target, "x86_64") {
        String::from_str("x64")
    } else if str_eq(target, "aarch64") {
        String::from_str("arm64")
    } else {
        String::from_str("unknown")
    }
}

/// The system utility that opens a directory in the file browser.
pub open spec fn spec_opener_command(p: PlatformProfile) -> Seq<char> {
    match p {
        PlatformProfile::MacOs => "open"@,
        PlatformProfile::Linux => "xdg-open"@,
        PlatformProfile::Windows => "explorer"@,
    }
}

pub fn opener_command(p: PlatformProfile) -> (r: String)
    ensures
        r@ == spec_opener_command(p),
{
    match p {
        PlatformProfile::MacOs => String::from_str("open"),
        PlatformProfile::Linux => String::from_str("xdg-open"),
        PlatformProfile::Windows => String::from_str("explorer"),
    }
}

} // verus!
