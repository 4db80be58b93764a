//! The operation surface of the shell.
//!
//! Every operation runs the external tool once: it builds an argument
//! vector, lets the caller spawn the subprocess, and interprets the captured
//! outcome. The argument vectors and the interpretation are verified here;
//! the spawn itself is the caller's. A non-zero exit status is not a launch
//! failure: it surfaces as an error carrying the captured standard-error
//! text verbatim.

use vstd::prelude::*;
use vstd::string::*;

use crate::alias::{spec_resolve_default, resolve_default_version, AliasEntry};
use crate::parser::{
    parse_env_with_flags, spec_extract, spec_is_true_token, spec_parse_state, FnmEnv, FnmEnvView,
};
use crate::platform::{
    get_system_arch, path_sep_str, spec_arch_token, spec_path_sep, PlatformProfile,
};
use crate::text::{concat_str, spec_lines, spec_trim, split_lines, trim_ws};

verus! {

/// What one subprocess run produced: whether the tool exited successfully,
/// and the captured output texts.
pub struct ProcessOutcome {
    pub success: bool,
    pub stdout: String,
    pub stderr: String,
}

/// Turns an outcome into the operation's result: the raw standard output on
/// success, and exactly the captured standard-error text as the error
/// otherwise.
pub fn interpret_outcome(outcome: &ProcessOutcome) -> (r: Result<String, String>)
    ensures
        outcome.success <==> r is Ok,
        outcome.success ==> (r matches Ok(v) && v@ == outcome.stdout@),
        !outcome.success ==> (r matches Err(e) && e@ == outcome.stderr@),
{
    if outcome.success {
        Ok(outcome.stdout.clone())
    } else {
        Err(outcome.stderr.clone())
    }
}

/// The argument vector of the list-installed operation.
pub fn list_installed_args() -> (r: Vec<String>)
    ensures
        r.deep_view() =~~= seq!["list"@],
{
    let mut out: Vec<String> = Vec::new();
    out.push(String::from_str("list"));
    proof {
        assert(out.deep_view() =~~= seq!["list"@]);
    }
    out
}

/// The argument vector of the list-remote operation: newest versions first,
/// optionally restricted to long-term-support releases, optionally filtered
/// on the server side.
pub open spec fn spec_list_remote_args(lts_only: bool, filter: Option<Seq<char>>) -> Seq<
    Seq<char>,
> {
    let base = seq!["list-remote"@, "--sort"@, "desc"@];
    let with_lts = if lts_only {
        base + seq!["--lts"@]
    } else {
        base
    };
    match filter {
        Some(k) => if k.len() > 0 {
            with_lts + seq!["--filter"@, k]
        } else {
            with_lts
        },
        None => with_lts,
    }
}

pub fn list_remote_args(lts_only: bool, filter: &Option<String>) -> (r: Vec<String>)
    ensures
        r.deep_view() == spec_list_remote_args(lts_only, filter.deep_view()),
{
    let mut out: Vec<String> = Vec::new();
    out.push(String::from_str("list-remote"));
    out.push(String::from_str("--sort"));
    out.push(String::from_str("desc"));
    if lts_only {
        out.push(String::from_str("--lts"));
    }
    if let Some(k) = filter {
        if k.as_str().unicode_len() > 0 {
            out.push(String::from_str("--filter"));
            out.push(k.clone());
        }
    }
    proof {
        assert(out.deep_view() =~~= spec_list_remote_args(lts_only, filter.deep_view()));
    }
    out
}

fn subcommand_with_version(name: &str, version: &str) -> (r: Vec<String>)
    ensures
        r.deep_view() =~~= seq![name@, version@],
{
    let mut out: Vec<String> = Vec::new();
    out.push(String::from_str(name));
    out.push(String::from_str(version));
    proof {
        assert(out.deep_view() =~~= seq![name@, version@]);
    }
    out
}

/// The argument vector of the install operation.
pub fn install_args(version: &str) -> (r: Vec<String>)
    ensures
        r.deep_view() =~~= seq!["install"@, version@],
{
    subcommand_with_version("install", version)
}

/// The argument vector of the uninstall operation.
pub fn uninstall_args(version: &str) -> (r: Vec<String>)
    ensures
        r.deep_view() =~~= seq!["uninstall"@, version@],
{
    subcommand_with_version("uninstall", version)
}

/// The argument vector of the use (switch-version) operation.
pub fn use_args(version: &str) -> (r: Vec<String>)
    ensures
        r.deep_view() =~~= seq!["use"@, version@],
{
    subcommand_with_version("use", version)
}

/// The argument vector of the set-default operation.
pub fn set_default_args(version: &str) -> (r: Vec<String>)
    ensures
        r.deep_view() =~~= seq!["default"@, version@],
{
    subcommand_with_version("default", version)
}

/// The argument vector of the current-version query.
pub fn current_args() -> (r: Vec<String>)
    ensures
        r.deep_view() =~~= seq!["current"@],
{
    let mut out: Vec<String> = Vec::new();
    out.push(String::from_str("current"));
    proof {
        assert(out.deep_view() =~~= seq!["current"@]);
    }
    out
}

/// The argument vector of the environment query.
pub fn env_args() -> (r: Vec<String>)
    ensures
        r.deep_view() =~~= seq!["env"@],
{
    let mut out: Vec<String> = Vec::new();
    out.push(String::from_str("env"));
    proof {
        assert(out.deep_view() =~~= seq!["env"@]);
    }
    out
}

/// The current-version query returns the tool's trimmed output when the
/// tool succeeded; when it failed (common in a GUI-launched environment),
/// the version is resolved from the alias entry instead.
pub fn get_current_version(
    outcome: &ProcessOutcome,
    entry: &AliasEntry,
    profile: PlatformProfile,
) -> (r: String)
    ensures
        outcome.success ==> r@ == spec_trim(outcome.stdout@),
        !outcome.success ==> r@ == spec_resolve_default(*entry, profile),
{
    if outcome.success {
        trim_ws(outcome.stdout.as_str())
    } else {
        resolve_default_version(entry, profile)
    }
}

/// The installation directory of one version inside the data directory.
pub open spec fn spec_version_dir(
    fnm_dir: Seq<char>,
    version: Seq<char>,
    p: PlatformProfile,
) -> Seq<char> {
    fnm_dir + seq![spec_path_sep(p)] + "node-versions"@ + seq![spec_path_sep(p)] + version + seq![
        spec_path_sep(p),
    ] + "installation"@
}

pub fn get_version_dir(fnm_dir: &str, version: &str, profile: PlatformProfile) -> (r: String)
    ensures
        r@ == spec_version_dir(fnm_dir@, version@, profile),
{
    let sep = path_sep_str(profile);
    let mut out = String::from_str(fnm_dir);
    out.append(sep);
    out.append("node-versions");
    out.append(sep);
    out.append(version);
    out.append(sep);
    out.append("installation");
    out
}

/// The `bin`-directory entry of an installed version, for probing what
/// corepack placed next to the runtime.
pub open spec fn spec_bin_entry(
    install_dir: Seq<char>,
    name: Seq<char>,
    p: PlatformProfile,
) -> Seq<char> {
    install_dir + seq![spec_path_sep(p)] + "bin"@ + seq![spec_path_sep(p)] + name
}

pub fn bin_entry_path(install_dir: &str, name: &str, profile: PlatformProfile) -> (r: String)
    ensures
        r@ == spec_bin_entry(install_dir@, name@, profile),
{
    let sep = path_sep_str(profile);
    let mut out = String::from_str(install_dir);
    out.append(sep);
    out.append("bin");
    out.append(sep);
    out.append(name);
    out
}

/// Plans the corepack toggle: it needs a known data directory and a default
/// version recorded as a symbolic link; the plan is the path of the
/// `corepack` binary to run.
pub fn plan_corepack_toggle(
    data_dir: &Option<String>,
    entry: &AliasEntry,
    profile: PlatformProfile,
) -> (r: Result<String, String>)
    ensures
        (match data_dir {
            Option::None => (r matches Err(e)
                && e@ == "could not determine the fnm directory"@),
            Option::Some(d) => {
                if d@.len() == 0 {
                    r matches Err(e) && e@ == "could not determine the fnm directory"@
                } else {
                    match *entry {
                        AliasEntry::Absent => (r matches Err(e)
                            && e@ == "set a default Node.js version first"@),
                        AliasEntry::File { .. } => (r matches Err(e)
                            && e@ == "could not read the default version"@),
                        AliasEntry::Symlink { target } => (r matches Ok(p) && p@ == spec_bin_entry(
                            target@,
                            "corepack"@,
                            profile,
                        )),
                    }
                }
            },
        }),
{
    let dir_known = match data_dir {
        Some(d) => d.as_str().unicode_len() > 0,
        None => false,
    };
    if !dir_known {
        return Err(String::from_str("could not determine the fnm directory"));
    }
    match entry {
        AliasEntry::Absent => Err(String::from_str("set a default Node.js version first")),
        AliasEntry::File { .. } => Err(String::from_str("could not read the default version")),
        AliasEntry::Symlink { target } => Ok(bin_entry_path(target.as_str(), "corepack", profile)),
    }
}

/// The message reported when the planned `corepack` binary does not exist.
pub fn corepack_missing_message() -> (r: String)
    ensures
        r@ == "corepack was not found; it needs Node.js 16.9 or newer"@,
{
    String::from_str("corepack was not found; it needs Node.js 16.9 or newer")
}

/// The argument vector handed to the `corepack` binary.
pub fn corepack_toggle_args(enable: bool) -> (r: Vec<String>)
    ensures
        enable ==> r.deep_view() =~~= seq!["enable"@],
        !enable ==> r.deep_view() =~~= seq!["disable"@],
{
    let mut out: Vec<String> = Vec::new();
    if enable {
        out.push(String::from_str("enable"));
        proof {
            assert(out.deep_view() =~~= seq!["enable"@]);
        }
    } else {
        out.push(String::from_str("disable"));
        proof {
            assert(out.deep_view() =~~= seq!["disable"@]);
        }
    }
    out
}

/// Interprets the outcome of the corepack run: its standard-error text
/// verbatim on failure, a fixed confirmation on success.
pub fn corepack_toggle_result(enable: bool, outcome: &ProcessOutcome) -> (r: Result<
    String,
    String,
>)
    ensures
        !outcome.success ==> (r matches Err(e) && e@ == outcome.stderr@),
        outcome.success && enable ==> (r matches Ok(v) && v@ == "corepack enabled"@),
        outcome.success && !enable ==> (r matches Ok(v) && v@ == "corepack disabled"@),
{
    if !outcome.success {
        return Err(outcome.stderr.clone());
    }
    if enable {
        Ok(String::from_str("corepack enabled"))
    } else {
        Ok(String::from_str("corepack disabled"))
    }
}

/// The first nonempty data-directory value an `env` output reports.
pub open spec fn spec_first_dir_value(lines: Seq<Seq<char>>) -> Option<Seq<char>>
    decreases lines.len(),
{
    if lines.len() == 0 {
        None
    } else {
        match spec_extract(spec_trim(lines[0]), "FNM_DIR"@) {
            Some(v) => if v.len() > 0 {
                Some(v)
            } else {
                spec_first_dir_value(lines.drop_first())
            },
            None => spec_first_dir_value(lines.drop_first()),
        }
    }
}

pub open spec fn spec_fnm_dir_from_output(text: Seq<char>) -> Option<Seq<char>> {
    spec_first_dir_value(spec_lines(text))
}

/// Scans an `env` output for the first line that assigns a nonempty value
/// to the data-directory variable.
pub fn fnm_dir_from_env_output(text: &str) -> (r: Option<String>)
    ensures
        r.deep_view() == spec_fnm_dir_from_output(text@),
{
    let lines = split_lines(text);
    let ghost dv = lines.deep_view();
    let mut idx: usize = 0;
    proof {
        assert(dv.subrange(0, dv.len() as int) =~= dv);
    }
    while idx < lines.len()
        invariant
            0 <= idx <= lines@.len(),
            lines.deep_view() == dv,
            dv.len() == lines@.len(),
            dv == spec_lines(text@),
            spec_fnm_dir_from_output(text@) == spec_first_dir_value(
                dv.subrange(idx as int, dv.len() as int),
            ),
        decreases lines@.len() - idx,
    {
        let ghost rem = dv.subrange(idx as int, dv.len() as int);
        proof {
            assert(rem[0] == dv[idx as int]);
            assert(rem.drop_first() =~= dv.subrange(idx + 1, dv.len() as int));
            assert(dv[idx as int] == lines@[idx as int]@);
        }
        let trimmed = trim_ws(lines[idx].as_str());
        if let Some(v) = crate::parser::extract_env_value(trimmed.as_str(), "FNM_DIR") {
            if v.as_str().unicode_len() > 0 {
                return Some(v);
            }
        }
        idx = idx + 1;
    }
    proof {
        assert(dv.subrange(dv.len() as int, dv.len() as int) =~= Seq::<Seq<char>>::empty());
    }
    None
}

/// A snapshot of the optional override variables read from the inherited
/// process environment.
pub struct EnvOverrides {
    pub node_dist_mirror: Option<String>,
    pub version_file_strategy: Option<String>,
    pub corepack_enabled: Option<String>,
    pub resolve_engines: Option<String>,
    pub loglevel: Option<String>,
}

pub ghost struct EnvOverridesView {
    pub node_dist_mirror: Option<Seq<char>>,
    pub version_file_strategy: Option<Seq<char>>,
    pub corepack_enabled: Option<Seq<char>>,
    pub resolve_engines: Option<Seq<char>>,
    pub loglevel: Option<Seq<char>>,
}

impl View for EnvOverrides {
    type V = EnvOverridesView;

    open spec fn view(&self) -> EnvOverridesView {
        EnvOverridesView {
            node_dist_mirror: self.node_dist_mirror.deep_view(),
            version_file_strategy: self.version_file_strategy.deep_view(),
            corepack_enabled: self.corepack_enabled.deep_view(),
            resolve_engines: self.resolve_engines.deep_view(),
            loglevel: self.loglevel.deep_view(),
        }
    }
}

/// The environment-query result: each field takes the value the tool's
/// `env` output assigned; a field the output did not assign takes the
/// override variable when one is set; what is still open keeps its default,
/// with the data directory defaulting to the platform's and the
/// architecture to the build target's token.
pub open spec fn spec_fnm_env(
    text: Seq<char>,
    ov: EnvOverridesView,
    default_dir: Option<Seq<char>>,
    arch_token: Seq<char>,
) -> FnmEnvView {
    let st = spec_parse_state(text);
    let p = st.0;
    let seen = st.1;
    FnmEnvView {
        fnm_dir: if seen.fnm_dir {
            p.fnm_dir
        } else {
            match default_dir {
                Some(d) => d,
                None => Seq::empty(),
            }
        },
        node_dist_mirror: if seen.node_dist_mirror {
            p.node_dist_mirror
        } else {
            match ov.node_dist_mirror {
                Some(v) => v,
                None => p.node_dist_mirror,
            }
        },
        version_file_strategy: if seen.version_file_strategy {
            p.version_file_strategy
        } else {
            match ov.version_file_strategy {
                Some(v) => v,
                None => p.version_file_strategy,
            }
        },
        corepack_enabled: if seen.corepack_enabled {
            p.corepack_enabled
        } else {
            match ov.corepack_enabled {
                Some(v) => spec_is_true_token(v),
                None => p.corepack_enabled,
            }
        },
        resolve_engines: if seen.resolve_engines {
            p.resolve_engines
        } else {
            match ov.resolve_engines {
                Some(v) => spec_is_true_token(v),
                None => p.resolve_engines,
            }
        },
        arch: if seen.arch {
            p.arch
        } else {
            spec_arch_token(arch_token)
        },
        loglevel: if seen.loglevel {
            p.loglevel
        } else {
            match ov.loglevel {
                Some(v) => v,
                None => p.loglevel,
            }
        },
    }
}

/// Assembles the environment-query result from the tool's `env` output, the
/// override variables, the platform's default data directory and the build
/// target's architecture name.
pub fn get_fnm_env(
    env_output: &str,
    overrides: &EnvOverrides,
    default_dir: &Option<String>,
    arch_token: &str,
) -> (r: FnmEnv)
    ensures
        r@ == spec_fnm_env(env_output@, overrides@, default_dir.deep_view(), arch_token@),
{
    let parsed = parse_env_with_flags(env_output);
    let mut env = parsed.env;
    let seen = parsed.seen;
    if !seen.fnm_dir {
        env.fnm_dir = match default_dir {
            Some(d) => d.clone(),
            None => String::new(),
        };
    }
    if !seen.node_dist_mirror {
        if let Some(v) = &overrides.node_dist_mirror {
            env.node_dist_mirror = v.clone();
        }
    }
    if !seen.version_file_strategy {
        if let Some(v) = &overrides.version_file_strategy {
            env.version_file_strategy = v.clone();
        }
    }
    if !seen.corepack_enabled {
        if let Some(v) = &overrides.corepack_enabled {
            env.corepack_enabled = crate::parser::parse_bool_token(v.as_str());
        }
    }
    if !seen.resolve_engines {
        if let Some(v) = &overrides.resolve_engines {
            env.resolve_engines = crate::parser::parse_bool_token(v.as_str());
        }
    }
    if !seen.arch {
        env.arch = get_system_arch(arch_token);
    }
    if !seen.loglevel {
        if let Some(v) = &overrides.loglevel {
            env.loglevel = v.clone();
        }
    }
    env
}

} // verus!
