//! Locating the external tool binary.
//!
//! The resolver enumerates the platform-specific places where the binary may
//! have been installed, in a fixed priority order, and selects the first
//! candidate that exists as a regular file. Filesystem probing and the
//! system `which`/`where` fallback are performed by the caller, which hands
//! the probe results and the lookup output back in as plain values; the
//! decisions over them are verified here.

use vstd::prelude::*;
use vstd::string::*;

use crate::platform::PlatformProfile;
use crate::text::{concat_str, spec_lines, spec_trim, split_lines, trim_ws};

verus! {

/// The home-relative candidate locations shared by the POSIX platforms.
pub open spec fn spec_home_candidates(home: Option<Seq<char>>) -> Seq<Seq<char>> {
    match home {
        Some(h) => seq![h + "/.cargo/bin/fnm"@, h + "/.fnm/fnm"@, h + "/.local/bin/fnm"@],
        None => Seq::empty(),
    }
}

/// The candidate locations of the tool binary for one platform, in priority
/// order: package-manager locations first, then per-user installer
/// locations.
pub open spec fn spec_candidates(
    p: PlatformProfile,
    home: Option<Seq<char>>,
    local_appdata: Option<Seq<char>>,
    program_files: Option<Seq<char>>,
) -> Seq<Seq<char>> {
    match p {
        PlatformProfile::MacOs => seq!["/opt/homebrew/bin/fnm"@, "/usr/local/bin/fnm"@]
            + spec_home_candidates(home),
        PlatformProfile::Linux => seq!["/usr/bin/fnm"@, "/usr/local/bin/fnm"@]
            + spec_home_candidates(home),
        PlatformProfile::Windows => (match home {
            Some(h) => seq![h + "\\.cargo\\bin\\fnm.exe"@, h + "\\scoop\\shims\\fnm.exe"@],
            None => Seq::empty(),
        }) + (match local_appdata {
            Some(l) => seq![l + "\\fnm\\fnm.exe"@],
            None => Seq::empty(),
        }) + (match program_files {
            Some(f) => seq![f + "\\fnm\\fnm.exe"@],
            None => Seq::empty(),
        }),
    }
}

/// Builds the candidate list for a platform from the injected ambient
/// values.
pub fn candidate_paths(
    profile: PlatformProfile,
    home: &Option<String>,
    local_appdata: &Option<String>,
    program_files: &Option<String>,
) -> (r: Vec<String>)
    ensures
        r.deep_view() == spec_candidates(
            profile,
            home.deep_view(),
            local_appdata.deep_view(),
            program_files.deep_view(),
        ),
{
    let mut out: Vec<String> = Vec::new();
    match profile {
        PlatformProfile::MacOs => {
            out.push(String::from_str("/opt/homebrew/bin/fnm"));
            out.push(String::from_str("/usr/local/bin/fnm"));
            if let Some(h) = home {
                out.push(concat_str(h.as_str(), "/.cargo/bin/fnm"));
                out.push(concat_str(h.as_str(), "/.fnm/fnm"));
                out.push(concat_str(h.as_str(), "/.local/bin/fnm"));
            }
        },
        PlatformProfile::Linux => {
            out.push(String::from_str("/usr/bin/fnm"));
            out.push(String::from_str("/usr/local/bin/fnm"));
            if let Some(h) = home {
                out.push(concat_str(h.as_str(), "/.cargo/bin/fnm"));
                out.push(concat_str(h.as_str(), "/.fnm/fnm"));
                out.push(concat_str(h.as_str(), "/.local/bin/fnm"));
            }
        },
        PlatformProfile::Windows => {
            if let Some(h) = home {
                out.push(concat_str(h.as_str(), "\\.cargo\\bin\\fnm.exe"));
                out.push(concat_str(h.as_str(), "\\scoop\\shims\\fnm.exe"));
            }
            if let Some(l) = local_appdata {
                out.push(concat_str(l.as_str(), "\\fnm\\fnm.exe"));
            }
            if let Some(f) = program_files {
                out.push(concat_str(f.as_str(), "\\fnm\\fnm.exe"));
            }
        },
    }
    proof {
        assert(out.deep_view() =~~= spec_candidates(
            profile,
            home.deep_view(),
            local_appdata.deep_view(),
            program_files.deep_view(),
        ));
    }
    out
}

/// A filesystem probe of one candidate path.
pub struct CandidateProbe {
    pub path: String,
    pub exists: bool,
    pub is_file: bool,
}

/// A candidate is usable when the path exists and names a regular file.
pub open spec fn probe_ok(p: CandidateProbe) -> bool {
    p.exists && p.is_file
}

/// What the resolver decides from the probe results.
pub enum ResolveStep {
    /// The first usable candidate, with its position in the priority order.
    Found { index: usize, path: String },
    /// No declared candidate is usable: ask the system lookup utility.
    NeedsSystemLookup,
}

/// Selects the first candidate that exists as a regular file; asks for the
/// system lookup exactly when no candidate does.
pub fn resolve_from_probes(probes: &Vec<CandidateProbe>) -> (r: ResolveStep)
    ensures
        (r matches ResolveStep::Found { index, path } ==> index < probes@.len() && probe_ok(
            probes@[index as int],
        ) && path@ == probes@[index as int].path@ && forall|j: int|
            0 <= j < index ==> !probe_ok(probes@[j])),
        r is NeedsSystemLookup ==> forall|j: int| 0 <= j < probes@.len() ==> !probe_ok(probes@[j]),
{
    let mut i: usize = 0;
    while i < probes.len()
        invariant
            0 <= i <= probes@.len(),
            forall|j: int| 0 <= j < i ==> !probe_ok(probes@[j]),
        decreases probes@.len() - i,
    {
        if probes[i].exists && probes[i].is_file {
            let path = probes[i].path.clone();
            return ResolveStep::Found { index: i, path };
        }
        i = i + 1;
    }
    ResolveStep::NeedsSystemLookup
}

/// The candidate named by the system lookup utility's output: its first
/// line, trimmed; nothing when the output has no nonempty first line.
pub open spec fn spec_lookup_candidate(out: Seq<char>) -> Option<Seq<char>> {
    let ls = spec_lines(out);
    if ls.len() > 0 && spec_trim(ls[0]).len() > 0 {
        Some(spec_trim(ls[0]))
    } else {
        None
    }
}

/// Parses the output of the system lookup utility (`which` on POSIX,
/// `where` on Windows, which may print several lines) into its first
/// reported path.
pub fn parse_lookup_output(out: &str) -> (r: Option<String>)
    ensures
        r.deep_view() == spec_lookup_candidate(out@),
{
    let lines = split_lines(out);
    if lines.len() > 0 {
        proof {
            assert(lines.deep_view()[0] == lines@[0]@);
        }
        let t = trim_ws(lines[0].as_str());
        if t.as_str().unicode_len() > 0 {
            return Some(t);
        }
        return None;
    }
    None
}

/// Accepts a path reported by the system lookup only after it was probed to
/// exist; the resolver never hands out a non-existent path.
pub fn accept_lookup(path: String, exists: bool) -> (r: Option<String>)
    ensures
        exists ==> (r matches Some(p) && p@ == path@),
        !exists ==> r is None,
{
    if exists {
        Some(path)
    } else {
        None
    }
}

/// The remediation text reported when nothing resolves: how to install the
/// tool on each platform.
pub open spec fn spec_remediation() -> Seq<char> {
    "fnm was not found; install it and try again.\n\nmacOS: brew install fnm\nWindows: winget install Schniz.fnm\nLinux: curl -fsSL https://fnm.vercel.app/install | bash"@
}

pub fn remediation_message() -> (r: String)
    ensures
        r@ == spec_remediation(),
{
    String::from_str(
        "fnm was not found; install it and try again.\n\nmacOS: brew install fnm\nWindows: winget install Schniz.fnm\nLinux: curl -fsSL https://fnm.vercel.app/install | bash",
    )
}

} // verus!
