//! Building the process environment for the external tool.
//!
//! A GUI-launched process may inherit a minimal environment, so the builder
//! takes a snapshot of the inherited variables and returns it with exactly
//! two amendments: the `PATH` value extended with the common binary
//! directories of the platform, and the tool's data-directory variable set
//! to the platform default when the snapshot does not define it. Nothing is
//! ever removed.

use vstd::prelude::*;
use vstd::string::*;

use crate::platform::{path_list_sep, spec_path_list_sep, PlatformProfile};
use crate::text::concat_str;

verus! {

/// One variable of an environment snapshot.
pub struct EnvPair {
    pub key: String,
    pub value: String,
}

/// The value of the first entry with key `k`, if any.
pub open spec fn spec_env_lookup(s: Seq<EnvPair>, k: Seq<char>) -> Option<Seq<char>>
    decreases s.len(),
{
    if s.len() == 0 {
        None
    } else if s[0].key@ == k {
        Some(s[0].value@)
    } else {
        spec_env_lookup(s.drop_first(), k)
    }
}

pub open spec fn spec_env_has(s: Seq<EnvPair>, k: Seq<char>) -> bool {
    spec_env_lookup(s, k) is Some
}

/// Finds the value of the first entry with the given key.
pub fn env_lookup(env: &Vec<EnvPair>, key: &str) -> (r: Option<String>)
    ensures
        r.deep_view() == spec_env_lookup(env@, key@),
{
    let ghost whole = env@;
    let mut i: usize = 0;
    proof {
        assert(whole.subrange(0, whole.len() as int) =~= whole);
    }
    while i < env.len()
        invariant
            0 <= i <= env@.len(),
            spec_env_lookup(env@, key@) == spec_env_lookup(
                env@.subrange(i as int, env@.len() as int),
                key@,
            ),
        decreases env@.len() - i,
    {
        let ghost rem = env@.subrange(i as int, env@.len() as int);
        proof {
            assert(rem[0] == env@[i as int]);
            assert(rem.drop_first() =~= env@.subrange(i + 1, env@.len() as int));
        }
        if crate::text::str_eq(env[i].key.as_str(), key) {
            return Some(env[i].value.clone());
        }
        i = i + 1;
    }
    None
}

proof fn lemma_lookup_push(s: Seq<EnvPair>, p: EnvPair, k: Seq<char>)
    ensures
        spec_env_lookup(s, k) is Some ==> spec_env_lookup(s.push(p), k) == spec_env_lookup(s, k),
        spec_env_lookup(s, k) is None && p.key@ == k ==> spec_env_lookup(s.push(p), k) == Some(
            p.value@,
        ),
        spec_env_lookup(s, k) is None && p.key@ != k ==> spec_env_lookup(s.push(p), k) is None,
    decreases s.len(),
{
    if s.len() == 0 {
        assert(s.push(p)[0] == p);
        assert(s.push(p).drop_first() =~= Seq::<EnvPair>::empty());
        assert(spec_env_lookup(Seq::<EnvPair>::empty(), k) is None);
    } else {
        assert(s.push(p)[0] == s[0]);
        assert(s.push(p).drop_first() =~= s.drop_first().push(p));
        lemma_lookup_push(s.drop_first(), p, k);
        if s[0].key@ == k {
            assert(spec_env_lookup(s.push(p), k) == Some(s[0].value@));
            assert(spec_env_lookup(s, k) == Some(s[0].value@));
        } else {
            assert(spec_env_lookup(s.push(p), k) == spec_env_lookup(s.drop_first().push(p), k));
            assert(spec_env_lookup(s, k) == spec_env_lookup(s.drop_first(), k));
        }
    }
}

proof fn lemma_lookup_update_first(s: Seq<EnvPair>, i: int, p: EnvPair, k: Seq<char>)
    requires
        0 <= i < s.len(),
        s[i].key@ == p.key@,
        forall|j: int| 0 <= j < i ==> s[j].key@ != p.key@,
    ensures
        spec_env_lookup(s.update(i, p), k) == (if k == p.key@ {
            Some(p.value@)
        } else {
            spec_env_lookup(s, k)
        }),
    decreases i,
{
    let s2 = s.update(i, p);
    if i == 0 {
        assert(s2[0] == p);
        assert(s2.drop_first() =~= s.drop_first());
        if k != p.key@ {
            assert(s[0].key@ == p.key@);
        }
    } else {
        assert(s2[0] == s[0]);
        assert(s2.drop_first() =~= s.drop_first().update(i - 1, p));
        assert forall|j: int| 0 <= j < i - 1 implies s.drop_first()[j].key@ != p.key@ by {
            assert(s.drop_first()[j] == s[j + 1]);
        }
        lemma_lookup_update_first(s.drop_first(), i - 1, p, k);
    }
}

/// Sets `key` to `value` in the snapshot: the first entry with that key is
/// replaced, or the pair is appended when the key is absent. Every other
/// key's value is untouched.
pub fn set_env_var(env: &mut Vec<EnvPair>, key: &str, value: &str)
    ensures
        spec_env_lookup(final(env)@, key@) == Some(value@),
        forall|k2: Seq<char>|
            k2 != key@ ==> spec_env_lookup(final(env)@, k2) == spec_env_lookup(old(env)@, k2),
{
    let n = env.len();
    let mut i: usize = 0;
    while i < n
        invariant
            0 <= i <= n,
            n == env@.len(),
            env@ == old(env)@,
            forall|j: int| 0 <= j < i ==> env@[j].key@ != key@,
        decreases n - i,
    {
        if crate::text::str_eq(env[i].key.as_str(), key) {
            let pair = EnvPair { key: String::from_str(key), value: String::from_str(value) };
            proof {
                assert forall|k2: Seq<char>| true implies spec_env_lookup(
                    env@.update(i as int, pair),
                    k2,
                ) == (if k2 == key@ {
                    Some(value@)
                } else {
                    spec_env_lookup(env@, k2)
                }) by {
                    lemma_lookup_update_first(env@, i as int, pair, k2);
                }
            }
            env.set(i, pair);
            return ;
        }
        i = i + 1;
    }
    let pair = EnvPair { key: String::from_str(key), value: String::from_str(value) };
    proof {
        assert forall|k2: Seq<char>| true implies spec_env_lookup(env@.push(pair), k2) == (if k2
            == key@ {
            Some(value@)
        } else {
            spec_env_lookup(env@, k2)
        }) by {
            lemma_lookup_push(env@, pair, k2);
            if k2 == key@ && spec_env_lookup(env@, k2) is Some {
                lemma_lookup_some_index(env@, k2);
            }
        }
    }
    env.push(pair);
}

proof fn lemma_lookup_some_index(s: Seq<EnvPair>, k: Seq<char>)
    requires
        spec_env_lookup(s, k) is Some,
    ensures
        exists|j: int| 0 <= j < s.len() && s[j].key@ == k,
    decreases s.len(),
{
    if s.len() > 0 {
        if s[0].key@ == k {
        } else {
            lemma_lookup_some_index(s.drop_first(), k);
            let j = choose|j: int|
                0 <= j < s.drop_first().len() && s.drop_first()[j].key@ == k;
            assert(s[j + 1].key@ == k);
        }
    }
}

/// The common binary directories a platform's enhanced `PATH` gains, in
/// order.
pub open spec fn spec_home_path_dirs(home: Option<Seq<char>>) -> Seq<Seq<char>> {
    match home {
        Some(h) => seq![h + "/.cargo/bin"@, h + "/.fnm"@, h + "/.local/bin"@],
        None => Seq::empty(),
    }
}

pub open spec fn spec_extra_path_dirs(p: PlatformProfile, home: Option<Seq<char>>) -> Seq<
    Seq<char>,
> {
    match p {
        PlatformProfile::MacOs => seq!["/opt/homebrew/bin"@, "/usr/local/bin"@]
            + spec_home_path_dirs(home),
        PlatformProfile::Linux => seq!["/usr/bin"@, "/usr/local/bin"@] + spec_home_path_dirs(
            home,
        ),
        PlatformProfile::Windows => Seq::empty(),
    }
}

/// `first` followed by each of `rest`, separated by `sep`.
pub open spec fn spec_joined(first: Seq<char>, rest: Seq<Seq<char>>, sep: char) -> Seq<char>
    decreases rest.len(),
{
    if rest.len() == 0 {
        first
    } else {
        spec_joined(first + seq![sep] + rest[0], rest.drop_first(), sep)
    }
}

/// The inherited `PATH` value extended with the platform's common binary
/// directories.
pub open spec fn spec_enhanced_path(
    p: PlatformProfile,
    home: Option<Seq<char>>,
    current: Seq<char>,
) -> Seq<char> {
    spec_joined(current, spec_extra_path_dirs(p, home), spec_path_list_sep(p))
}

fn extra_path_dirs(profile: PlatformProfile, home: &Option<String>) -> (r: Vec<String>)
    ensures
        r.deep_view() == spec_extra_path_dirs(profile, home.deep_view()),
{
    let mut out: Vec<String> = Vec::new();
    match profile {
        PlatformProfile::MacOs => {
            out.push(String::from_str("/opt/homebrew/bin"));
            out.push(String::from_str("/usr/local/bin"));
            if let Some(h) = home {
                out.push(concat_str(h.as_str(), "/.cargo/bin"));
                out.push(concat_str(h.as_str(), "/.fnm"));
                out.push(concat_str(h.as_str(), "/.local/bin"));
            }
        },
        PlatformProfile::Linux => {
            out.push(String::from_str("/usr/bin"));
            out.push(String::from_str("/usr/local/bin"));
            if let Some(h) = home {
                out.push(concat_str(h.as_str(), "/.cargo/bin"));
                out.push(concat_str(h.as_str(), "/.fnm"));
                out.push(concat_str(h.as_str(), "/.local/bin"));
            }
        },
        PlatformProfile::Windows => {},
    }
    proof {
        assert(out.deep_view() =~~= spec_extra_path_dirs(profile, home.deep_view()));
    }
    out
}

fn path_list_sep_str(profile: PlatformProfile) -> (r: &'static str)
    ensures
        r@ == seq![spec_path_list_sep(profile)],
{
    if matches!(profile, PlatformProfile::Windows) {
        proof {
            reveal_strlit(";");
        }
        ";"
    } else {
        proof {
            reveal_strlit(":");
        }
        ":"
    }
}

/// Extends an inherited `PATH` value with the platform's common binary
/// directories, so a GUI-launched subprocess still finds user-installed
/// tools.
pub fn get_enhanced_path(profile: PlatformProfile, home: &Option<String>, current_path: &str) -> (r:
    String)
    ensures
        r@ == spec_enhanced_path(profile, home.deep_view(), current_path@),
{
    let dirs = extra_path_dirs(profile, home);
    let ghost dv = dirs.deep_view();
    let sep = path_list_sep_str(profile);
    let mut acc = String::from_str(current_path);
    let mut i: usize = 0;
    proof {
        assert(dv.subrange(0, dv.len() as int) =~= dv);
    }
    while i < dirs.len()
        invariant
            0 <= i <= dirs@.len(),
            dirs.deep_view() == dv,
            dv.len() == dirs@.len(),
            sep@ == seq![spec_path_list_sep(profile)],
            spec_enhanced_path(profile, home.deep_view(), current_path@) == spec_joined(
                acc@,
                dv.subrange(i as int, dv.len() as int),
                spec_path_list_sep(profile),
            ),
        decreases dirs@.len() - i,
    {
        let ghost rem = dv.subrange(i as int, dv.len() as int);
        proof {
            assert(rem[0] == dv[i as int]);
            assert(rem.drop_first() =~= dv.subrange(i + 1, dv.len() as int));
            assert(dv[i as int] == dirs@[i as int]@);
        }
        acc.append(sep);
        acc.append(dirs[i].as_str());
        i = i + 1;
    }
    acc
}

/// The platform's default data directory for the tool, from the injected
/// ambient values: under the user's application-support directory on macOS,
/// under the local application data directory on Windows, under the XDG
/// data directory on Linux.
pub open spec fn spec_default_data_dir(
    p: PlatformProfile,
    home: Option<Seq<char>>,
    local_appdata: Option<Seq<char>>,
) -> Option<Seq<char>> {
    match p {
        PlatformProfile::MacOs => match home {
            Some(h) => Some(h + "/Library/Application Support/fnm"@),
            None => None,
        },
        PlatformProfile::Linux => match home {
            Some(h) => Some(h + "/.local/share/fnm"@),
            None => None,
        },
        PlatformProfile::Windows => match local_appdata {
            Some(l) => Some(l + "\\fnm"@),
            None => None,
        },
    }
}

pub fn default_data_dir(
    profile: PlatformProfile,
    home: &Option<String>,
    local_appdata: &Option<String>,
) -> (r: Option<String>)
    ensures
        r.deep_view() == spec_default_data_dir(
            profile,
            home.deep_view(),
            local_appdata.deep_view(),
        ),
{
    match profile {
        PlatformProfile::MacOs => match home {
            Some(h) => Some(concat_str(h.as_str(), "/Library/Application Support/fnm")),
            None => None,
        },
        PlatformProfile::Linux => match home {
            Some(h) => Some(concat_str(h.as_str(), "/.local/share/fnm")),
            None => None,
        },
        PlatformProfile::Windows => match local_appdata {
            Some(l) => Some(concat_str(l.as_str(), "\\fnm")),
            None => None,
        },
    }
}

/// The inherited `PATH` value of a snapshot, or empty when unset.
pub open spec fn spec_base_path(base: Seq<EnvPair>) -> Seq<char> {
    match spec_env_lookup(base, "PATH"@) {
        Some(v) => v,
        None => Seq::empty(),
    }
}

/// What the data-directory variable holds after the build: the inherited
/// value when the snapshot defines it, else the given platform default when
/// there is a nonempty one, else nothing.
pub open spec fn spec_data_dir_after(base: Seq<EnvPair>, data_dir: Option<Seq<char>>) -> Option<
    Seq<char>,
> {
    match spec_env_lookup(base, "FNM_DIR"@) {
        Some(v) => Some(v),
        None => match data_dir {
            Some(d) => if d.len() > 0 {
                Some(d)
            } else {
                None
            },
            None => None,
        },
    }
}

/// Builds the subprocess environment from an inherited snapshot: `PATH` is
/// replaced by its enhanced value, the data-directory variable is set to
/// `data_dir` when the snapshot leaves it undefined, and every other entry
/// is inherited unchanged — no entry is ever removed.
pub fn build_process_env(
    base: Vec<EnvPair>,
    profile: PlatformProfile,
    home: &Option<String>,
    data_dir: &Option<String>,
) -> (r: Vec<EnvPair>)
    ensures
        spec_env_lookup(r@, "PATH"@) == Some(
            spec_enhanced_path(profile, home.deep_view(), spec_base_path(base@)),
        ),
        spec_env_lookup(r@, "FNM_DIR"@) == spec_data_dir_after(base@, data_dir.deep_view()),
        forall|k2: Seq<char>|
            k2 != "PATH"@ && k2 != "FNM_DIR"@ ==> spec_env_lookup(r@, k2) == spec_env_lookup(
                base@,
                k2,
            ),
        forall|k2: Seq<char>| spec_env_has(base@, k2) ==> spec_env_has(r@, k2),
{
    proof {
        reveal_strlit("PATH");
        reveal_strlit("FNM_DIR");
        assert("PATH"@.len() != "FNM_DIR"@.len());
    }
    let ghost base_view = base@;
    let current = match env_lookup(&base, "PATH") {
        Some(v) => v,
        None => String::new(),
    };
    let enhanced = get_enhanced_path(profile, home, current.as_str());
    let mut out = base;
    set_env_var(&mut out, "PATH", enhanced.as_str());
    let already = env_lookup(&out, "FNM_DIR");
    if already.is_none() {
        if let Some(d) = data_dir {
            if d.as_str().unicode_len() > 0 {
                set_env_var(&mut out, "FNM_DIR", d.as_str());
            }
        }
    }
    out
}

} // verus!
