//! The output parser: turns the tool's line-oriented `env` output into a
//! typed configuration record.
//!
//! Each line may carry a variable assignment in one of three shapes — a
//! shell-export form (`export KEY=VALUE`), a Windows-set form
//! (`set KEY=VALUE`) or a bare `KEY=VALUE` — with the value optionally
//! quoted with single or double quotes and optionally ended by a `;`
//! separator. The value is everything after the first occurrence of the
//! matched pattern, with surrounding whitespace, then trailing separators,
//! then quotes stripped, in that order. Unrecognized lines and keys are
//! ignored; a later assignment to the same key wins. A boolean value is true
//! exactly when it is `1` or a case variant of `true`; anything else is
//! false.

use vstd::prelude::*;
use vstd::string::*;

use crate::text::{
    find_sub, is_ws, lemma_find_c_from_witness, lemma_find_sub_from_witness, lemma_find_sub_none,
    lemma_find_sub_props, lemma_trim_identity, match_at, spec_find_sub, spec_lines,
    spec_strip_both_c, spec_strip_end_c, spec_strip_start_c, spec_trim, split_lines, strip_both_c,
    strip_end_c, trim_ws,
};

verus! {

/// The tool's environment configuration record.
#[derive(Debug, Clone, PartialEq)]
pub struct FnmEnv {
    pub fnm_dir: String,
    pub node_dist_mirror: String,
    pub version_file_strategy: String,
    pub corepack_enabled: bool,
    pub resolve_engines: bool,
    pub arch: String,
    pub loglevel: String,
}

/// The mathematical model of an [`FnmEnv`] record.
pub ghost struct FnmEnvView {
    pub fnm_dir: Seq<char>,
    pub node_dist_mirror: Seq<char>,
    pub version_file_strategy: Seq<char>,
    pub corepack_enabled: bool,
    pub resolve_engines: bool,
    pub arch: Seq<char>,
    pub loglevel: Seq<char>,
}

impl View for FnmEnv {
    type V = FnmEnvView;

    open spec fn view(&self) -> FnmEnvView {
        FnmEnvView {
            fnm_dir: self.fnm_dir@,
            node_dist_mirror: self.node_dist_mirror@,
            version_file_strategy: self.version_file_strategy@,
            corepack_enabled: self.corepack_enabled,
            resolve_engines: self.resolve_engines,
            arch: self.arch@,
            loglevel: self.loglevel@,
        }
    }
}

/// The hardcoded defaults: empty data directory and architecture, the
/// public Node.js distribution mirror, local version-file strategy, corepack
/// off, engine resolution on, `info` log level.
pub open spec fn spec_default_env() -> FnmEnvView {
    FnmEnvView {
        fnm_dir: Seq::empty(),
        node_dist_mirror: "https://nodejs.org/dist"@,
        version_file_strategy: "local"@,
        corepack_enabled: false,
        resolve_engines: true,
        arch: Seq::empty(),
        loglevel: "info"@,
    }
}

impl Default for FnmEnv {
    fn default() -> (r: FnmEnv)
        ensures
            r@ == spec_default_env(),
    {
        FnmEnv {
            fnm_dir: String::new(),
            node_dist_mirror: String::from_str("https://nodejs.org/dist"),
            version_file_strategy: String::from_str("local"),
            corepack_enabled: false,
            resolve_engines: true,
            arch: String::new(),
            loglevel: String::from_str("info"),
        }
    }
}

/// Which keys an assignment was parsed for.
#[derive(Clone, Copy, PartialEq, Eq, Structural, Debug)]
pub struct SeenKeys {
    pub fnm_dir: bool,
    pub node_dist_mirror: bool,
    pub version_file_strategy: bool,
    pub corepack_enabled: bool,
    pub resolve_engines: bool,
    pub arch: bool,
    pub loglevel: bool,
}

pub open spec fn spec_no_keys_seen() -> SeenKeys {
    SeenKeys {
        fnm_dir: false,
        node_dist_mirror: false,
        version_file_strategy: false,
        corepack_enabled: false,
        resolve_engines: false,
        arch: false,
        loglevel: false,
    }
}

pub fn no_keys_seen() -> (r: SeenKeys)
    ensures
        r == spec_no_keys_seen(),
{
    SeenKeys {
        fnm_dir: false,
        node_dist_mirror: false,
        version_file_strategy: false,
        corepack_enabled: false,
        resolve_engines: false,
        arch: false,
        loglevel: false,
    }
}

/// A parsed record together with the keys the text actually assigned.
pub struct ParsedEnv {
    pub env: FnmEnv,
    pub seen: SeenKeys,
}

pub open spec fn spec_pat_export(key: Seq<char>) -> Seq<char> {
    "export "@ + key + "="@
}

pub open spec fn spec_pat_set(key: Seq<char>) -> Seq<char> {
    "set "@ + key + "="@
}

pub open spec fn spec_pat_bare(key: Seq<char>) -> Seq<char> {
    key + "="@
}

/// Strips a raw assignment value: surrounding whitespace, then trailing
/// statement separators, then double quotes, then single quotes.
pub open spec fn spec_strip_value(raw: Seq<char>) -> Seq<char> {
    spec_strip_both_c(spec_strip_both_c(spec_strip_end_c(spec_trim(raw), ';'), '"'), '\'')
}

pub fn strip_value(raw: &str) -> (r: String)
    ensures
        r@ == spec_strip_value(raw@),
{
    let t = trim_ws(raw);
    let t = strip_end_c(t.as_str(), ';');
    let t = strip_both_c(t.as_str(), '"');
    strip_both_c(t.as_str(), '\'')
}

/// The stripped value carried by `line` for `key`, taken from the first
/// occurrence of the first matching pattern shape.
pub open spec fn spec_extract(line: Seq<char>, key: Seq<char>) -> Option<Seq<char>> {
    match spec_find_sub(line, spec_pat_export(key)) {
        Some(i) => Some(
            spec_strip_value(line.subrange(i + spec_pat_export(key).len(), line.len() as int)),
        ),
        None => match spec_find_sub(line, spec_pat_set(key)) {
            Some(i) => Some(
                spec_strip_value(line.subrange(i + spec_pat_set(key).len(), line.len() as int)),
            ),
            None => match spec_find_sub(line, spec_pat_bare(key)) {
                Some(i) => Some(
                    spec_strip_value(
                        line.subrange(i + spec_pat_bare(key).len(), line.len() as int),
                    ),
                ),
                None => None,
            },
        },
    }
}

fn value_after(line: &str, i: usize, plen: usize) -> (r: String)
    requires
        i + plen <= line@.len(),
        line@.len() <= usize::MAX,
    ensures
        r@ == spec_strip_value(line@.subrange(i + plen, line@.len() as int)),
{
    let n = line.unicode_len();
    let raw = line.substring_char(i + plen, n);
    strip_value(raw)
}

/// Extracts the assignment value for `key` from one line, if the line
/// carries one in any of the three recognized shapes.
pub fn extract_env_value(line: &str, key: &str) -> (r: Option<String>)
    ensures
        r.deep_view() == spec_extract(line@, key@),
{
    let n = line.unicode_len();
    proof {
        assert(line@.len() <= usize::MAX);
    }
    let mut pat = String::from_str("export ");
    pat.append(key);
    pat.append("=");
    proof {
        lemma_find_sub_props(line@, pat@);
    }
    if let Some(i) = find_sub(line, pat.as_str()) {
        let plen = pat.as_str().unicode_len();
        return Some(value_after(line, i, plen));
    }
    let mut pat2 = String::from_str("set ");
    pat2.append(key);
    pat2.append("=");
    proof {
        lemma_find_sub_props(line@, pat2@);
    }
    if let Some(i) = find_sub(line, pat2.as_str()) {
        let plen = pat2.as_str().unicode_len();
        return Some(value_after(line, i, plen));
    }
    let mut pat3 = String::from_str(key);
    pat3.append("=");
    proof {
        lemma_find_sub_props(line@, pat3@);
    }
    if let Some(i) = find_sub(line, pat3.as_str()) {
        let plen = pat3.as_str().unicode_len();
        return Some(value_after(line, i, plen));
    }
    None
}

/// A boolean token is true exactly when it is `1` or a case variant of
/// `true`.
pub open spec fn spec_is_true_token(s: Seq<char>) -> bool {
    s == seq!['1'] || (s.len() == 4 && (s[0] == 't' || s[0] == 'T') && (s[1] == 'r' || s[1]
        == 'R') && (s[2] == 'u' || s[2] == 'U') && (s[3] == 'e' || s[3] == 'E'))
}

pub fn parse_bool_token(v: &str) -> (r: bool)
    ensures
        r == spec_is_true_token(v@),
{
    let n = v.unicode_len();
    if n == 1 && v.get_char(0) == '1' {
        proof {
            assert(v@ =~= seq!['1']);
        }
        true
    } else if n == 4 {
        let c0 = v.get_char(0);
        let c1 = v.get_char(1);
        let c2 = v.get_char(2);
        let c3 = v.get_char(3);
        (c0 == 't' || c0 == 'T') && (c1 == 'r' || c1 == 'R') && (c2 == 'u' || c2 == 'U') && (c3
            == 'e' || c3 == 'E')
    } else {
        false
    }
}

/// One line applied to the parse state: the first matching key pattern, in a
/// fixed key order, assigns the line's stripped value to its field.
pub open spec fn spec_apply_line(env: FnmEnvView, seen: SeenKeys, line: Seq<char>) -> (
    FnmEnvView,
    SeenKeys,
) {
    let l = spec_trim(line);
    match spec_extract(l, "FNM_DIR"@) {
        Some(v) => (
            FnmEnvView { fnm_dir: v, ..env },
            SeenKeys { fnm_dir: true, ..seen },
        ),
        None => match spec_extract(l, "FNM_NODE_DIST_MIRROR"@) {
            Some(v) => (
                FnmEnvView { node_dist_mirror: v, ..env },
                SeenKeys { node_dist_mirror: true, ..seen },
            ),
            None => match spec_extract(l, "FNM_VERSION_FILE_STRATEGY"@) {
                Some(v) => (
                    FnmEnvView { version_file_strategy: v, ..env },
                    SeenKeys { version_file_strategy: true, ..seen },
                ),
                None => match spec_extract(l, "FNM_COREPACK_ENABLED"@) {
                    Some(v) => (
                        FnmEnvView { corepack_enabled: spec_is_true_token(v), ..env },
                        SeenKeys { corepack_enabled: true, ..seen },
                    ),
                    None => match spec_extract(l, "FNM_RESOLVE_ENGINES"@) {
                        Some(v) => (
                            FnmEnvView { resolve_engines: spec_is_true_token(v), ..env },
                            SeenKeys { resolve_engines: true, ..seen },
                        ),
                        None => match spec_extract(l, "FNM_ARCH"@) {
                            Some(v) => (
                                FnmEnvView { arch: v, ..env },
                                SeenKeys { arch: true, ..seen },
                            ),
                            None => match spec_extract(l, "FNM_LOGLEVEL"@) {
                                Some(v) => (
                                    FnmEnvView { loglevel: v, ..env },
                                    SeenKeys { loglevel: true, ..seen },
                                ),
                                None => (env, seen),
                            },
                        },
                    },
                },
            },
        },
    }
}

pub open spec fn spec_parse_lines(env: FnmEnvView, seen: SeenKeys, lines: Seq<Seq<char>>) -> (
    FnmEnvView,
    SeenKeys,
)
    decreases lines.len(),
{
    if lines.len() == 0 {
        (env, seen)
    } else {
        let next = spec_apply_line(env, seen, lines[0]);
        spec_parse_lines(next.0, next.1, lines.drop_first())
    }
}

/// The parse state the whole text produces, starting from the defaults.
pub open spec fn spec_parse_state(text: Seq<char>) -> (FnmEnvView, SeenKeys) {
    spec_parse_lines(spec_default_env(), spec_no_keys_seen(), spec_lines(text))
}

/// The record the whole text parses to.
pub open spec fn spec_parse_env(text: Seq<char>) -> FnmEnvView {
    spec_parse_state(text).0
}

fn apply_line(env: &mut FnmEnv, seen: &mut SeenKeys, line: &str)
    ensures
        (final(env)@, *final(seen)) == spec_apply_line(old(env)@, *old(seen), line@),
{
    let trimmed = trim_ws(line);
    let l = trimmed.as_str();
    if let Some(v) = extract_env_value(l, "FNM_DIR") {
        env.fnm_dir = v;
        seen.fnm_dir = true;
    } else if let Some(v) = extract_env_value(l, "FNM_NODE_DIST_MIRROR") {
        env.node_dist_mirror = v;
        seen.node_dist_mirror = true;
    } else if let Some(v) = extract_env_value(l, "FNM_VERSION_FILE_STRATEGY") {
        env.version_file_strategy = v;
        seen.version_file_strategy = true;
    } else if let Some(v) = extract_env_value(l, "FNM_COREPACK_ENABLED") {
        env.corepack_enabled = parse_bool_token(v.as_str());
        seen.corepack_enabled = true;
    } else if let Some(v) = extract_env_value(l, "FNM_RESOLVE_ENGINES") {
        env.resolve_engines = parse_bool_token(v.as_str());
        seen.resolve_engines = true;
    } else if let Some(v) = extract_env_value(l, "FNM_ARCH") {
        env.arch = v;
        seen.arch = true;
    } else if let Some(v) = extract_env_value(l, "FNM_LOGLEVEL") {
        env.loglevel = v;
        seen.loglevel = true;
    }
}

/// Parses the whole `env` output and reports which keys it assigned.
pub fn parse_env_with_flags(text: &str) -> (r: ParsedEnv)
    ensures
        (r.env@, r.seen) == spec_parse_state(text@),
{
    let lines = split_lines(text);
    let ghost dv = lines.deep_view();
    let mut env = FnmEnv::default();
    let mut seen = no_keys_seen();
    let mut idx: usize = 0;
    proof {
        assert(dv.subrange(0, dv.len() as int) =~= dv);
    }
    while idx < lines.len()
        invariant
            0 <= idx <= lines.len(),
            lines.deep_view() == dv,
            dv.len() == lines@.len(),
            dv == spec_lines(text@),
            spec_parse_state(text@) == spec_parse_lines(
                env@,
                seen,
                dv.subrange(idx as int, dv.len() as int),
            ),
        decreases lines.len() - idx,
    {
        let ghost pre = dv.subrange(idx as int, dv.len() as int);
        proof {
            assert(pre[0] == dv[idx as int]);
            assert(pre.drop_first() =~= dv.subrange(idx + 1, dv.len() as int));
            assert(dv[idx as int] == lines@[idx as int]@);
        }
        apply_line(&mut env, &mut seen, lines[idx].as_str());
        idx = idx + 1;
    }
    proof {
        assert(dv.subrange(dv.len() as int, dv.len() as int) =~= Seq::<Seq<char>>::empty());
    }
    ParsedEnv { env, seen }
}

/// Parses the tool's `env` output into a configuration record. Fields the
/// text does not assign keep their defaults; the parse never fails.
pub fn parse_fnm_env(env_str: &str) -> (r: Result<FnmEnv, String>)
    ensures
        r matches Ok(env) && env@ == spec_parse_env(env_str@),
{
    let parsed = parse_env_with_flags(env_str);
    Ok(parsed.env)
}

pub open spec fn spec_bool_token(b: bool) -> Seq<char> {
    if b {
        "true"@
    } else {
        "false"@
    }
}

/// One serialized assignment line: `export KEY="VALUE"` and a newline.
pub open spec fn spec_quoted_line(key: Seq<char>, value: Seq<char>) -> Seq<char> {
    "export "@ + key + "=\""@ + value + "\"\n"@
}

/// The record in its own serialized shape: one quoted export line per field,
/// in the parser's key order.
pub open spec fn spec_serialize_env(e: FnmEnvView) -> Seq<char> {
    spec_quoted_line("FNM_DIR"@, e.fnm_dir) + spec_quoted_line(
        "FNM_NODE_DIST_MIRROR"@,
        e.node_dist_mirror,
    ) + spec_quoted_line("FNM_VERSION_FILE_STRATEGY"@, e.version_file_strategy) + spec_quoted_line(
        "FNM_COREPACK_ENABLED"@,
        spec_bool_token(e.corepack_enabled),
    ) + spec_quoted_line("FNM_RESOLVE_ENGINES"@, spec_bool_token(e.resolve_engines))
        + spec_quoted_line("FNM_ARCH"@, e.arch) + spec_quoted_line("FNM_LOGLEVEL"@, e.loglevel)
}

fn push_quoted_line(out: &mut String, key: &str, value: &str)
    ensures
        final(out)@ == old(out)@ + spec_quoted_line(key@, value@),
{
    out.append("export ");
    out.append(key);
    out.append("=\"");
    out.append(value);
    out.append("\"\n");
}

fn bool_token(b: bool) -> (r: &'static str)
    ensures
        r@ == spec_bool_token(b),
{
    if b {
        "true"
    } else {
        "false"
    }
}

/// A value that survives the serialized round trip unchanged: it holds no
/// newline, no quote of either kind, and no `=`.
pub open spec fn spec_value_ok(s: Seq<char>) -> bool {
    forall|i: int|
        0 <= i < s.len() ==> s[i] != '\n' && s[i] != '"' && s[i] != '\'' && s[i] != '='
}

/// A key name as the parser's patterns assume it: nonempty, without `=` and
/// without a newline.
pub open spec fn spec_key_ok(k: Seq<char>) -> bool {
    k.len() > 0 && forall|i: int| 0 <= i < k.len() ==> k[i] != '=' && k[i] != '\n'
}

/// A record whose string fields all survive the round trip.
pub open spec fn spec_env_plain(e: FnmEnvView) -> bool {
    spec_value_ok(e.fnm_dir) && spec_value_ok(e.node_dist_mirror) && spec_value_ok(
        e.version_file_strategy,
    ) && spec_value_ok(e.arch) && spec_value_ok(e.loglevel)
}

/// A serialized line without its trailing newline, in concatenation shape.
pub open spec fn spec_line_body(key: Seq<char>, v: Seq<char>) -> Seq<char> {
    "export "@ + key + "="@ + seq!['"'] + v + seq!['"']
}

/// Where each character class sits in a line body: no newline anywhere, and
/// `=` only right after the key.
proof fn lemma_body_chars(key: Seq<char>, v: Seq<char>)
    requires
        spec_key_ok(key),
        spec_value_ok(v),
    ensures
        forall|i: int|
            0 <= i < spec_line_body(key, v).len() ==> spec_line_body(key, v)[i] != '\n',
        forall|i: int|
            0 <= i < spec_line_body(key, v).len() && spec_line_body(key, v)[i] == '=' ==> i == 7
                + key.len(),
        spec_line_body(key, v).len() == 10 + key.len() + v.len(),
        spec_line_body(key, v)[0] == 'e',
        spec_line_body(key, v)[spec_line_body(key, v).len() - 1] == '"',
{
    reveal_strlit("export ");
    reveal_strlit("=");
    let b = spec_line_body(key, v);
    assert(b.len() == 10 + key.len() + v.len());
    assert forall|i: int| 0 <= i < b.len() implies b[i] != '\n' && (b[i] == '=' ==> i == 7
        + key.len()) by {
        if i < 7 {
            assert(b[i] == "export "@[i]);
        } else if i < 7 + key.len() {
            assert(b[i] == key[i - 7]);
        } else if i == 7 + key.len() {
            assert(b[i] == "="@[0]);
        } else if i == 8 + key.len() {
            assert(b[i] == '"');
        } else if i < 9 + key.len() + v.len() {
            assert(b[i] == v[i - 9 - key.len()]);
        } else {
            assert(b[i] == '"');
        }
    }
    assert(b[0] == "export "@[0]);
    assert(b[b.len() - 1] == '"');
}

/// A serialized line is its body plus a newline.
proof fn lemma_quoted_line_shape(key: Seq<char>, v: Seq<char>)
    ensures
        spec_quoted_line(key, v) == spec_line_body(key, v) + seq!['\n'],
{
    reveal_strlit("export ");
    reveal_strlit("=");
    reveal_strlit("=\"");
    reveal_strlit("\"\n");
    assert(spec_quoted_line(key, v) =~= spec_line_body(key, v) + seq!['\n']);
}

/// Splitting into lines peels off a newline-free prefix.
proof fn lemma_lines_prepend(a: Seq<char>, rest: Seq<char>)
    requires
        forall|i: int| 0 <= i < a.len() ==> a[i] != '\n',
    ensures
        spec_lines(a + seq!['\n'] + rest) == seq![a] + spec_lines(rest),
{
    let s = a + seq!['\n'] + rest;
    assert(s[a.len() as int] == '\n');
    assert forall|k: int| 0 <= k < a.len() implies s[k] != '\n' by {
        assert(s[k] == a[k]);
    }
    lemma_find_c_from_witness(s, '\n', a.len() as int);
    assert(s.subrange(0, a.len() as int) =~= a);
    assert(s.subrange(a.len() + 1 as int, s.len() as int) =~= rest);
}

/// Stripping a quoted plain value gives the value back.
proof fn lemma_strip_quoted(v: Seq<char>)
    requires
        spec_value_ok(v),
    ensures
        spec_strip_value(seq!['"'] + v + seq!['"']) == v,
{
    let s = seq!['"'] + v + seq!['"'];
    assert(s.len() == v.len() + 2);
    assert(s[0] == '"');
    assert(s[s.len() - 1] == '"');
    lemma_trim_identity(s);
    assert(spec_strip_end_c(s, ';') == s);
    let t = s.drop_first();
    assert(t =~= v + seq!['"']);
    if v.len() == 0 {
        assert(spec_strip_start_c(s, '"') == spec_strip_start_c(t, '"'));
        assert(t.len() == 1 && t[0] == '"');
        let e = t.drop_first();
        assert(e =~= Seq::<char>::empty());
        assert(spec_strip_start_c(t, '"') == spec_strip_start_c(e, '"'));
        assert(spec_strip_start_c(e, '"') == e);
        assert(spec_strip_end_c(e, '"') == e);
        assert(spec_strip_both_c(s, '"') =~= v);
    } else {
        assert(t[0] == v[0]);
        assert(spec_strip_start_c(t, '"') == t);
        assert(spec_strip_start_c(s, '"') == t);
        assert(t[t.len() - 1] == '"');
        assert(t.drop_last() =~= v);
        assert(spec_strip_end_c(t, '"') == spec_strip_end_c(v, '"'));
        assert(v[v.len() - 1] != '"');
        assert(spec_strip_end_c(v, '"') == v);
        assert(spec_strip_both_c(s, '"') == v);
    }
    let w = spec_strip_both_c(s, '"');
    assert(w == v);
    if v.len() == 0 {
        assert(spec_strip_start_c(w, '\'') == w);
        assert(spec_strip_end_c(w, '\'') == w);
        assert(spec_strip_both_c(w, '\'') =~= v);
    } else {
        assert(v[0] != '\'');
        assert(spec_strip_start_c(w, '\'') == w);
        assert(v[v.len() - 1] != '\'');
        assert(spec_strip_end_c(w, '\'') == w);
    }
}

/// A line body carries exactly its own key's value.
proof fn lemma_extract_own(key: Seq<char>, v: Seq<char>)
    requires
        spec_key_ok(key),
        spec_value_ok(v),
    ensures
        spec_extract(spec_line_body(key, v), key) == Some(v),
{
    reveal_strlit("export ");
    reveal_strlit("=");
    let b = spec_line_body(key, v);
    let pat = spec_pat_export(key);
    assert(pat.len() == 8 + key.len());
    assert(b.len() == 10 + key.len() + v.len()) by {
        lemma_body_chars(key, v);
    }
    assert(b.subrange(0, pat.len() as int) =~= pat);
    lemma_find_sub_from_witness(b, pat, 0);
    assert(b.subrange(pat.len() as int, b.len() as int) =~= seq!['"'] + v + seq!['"']);
    lemma_strip_quoted(v);
}

/// No pattern that carries a different key right before its final `=` can
/// occur in a line body whose prefix does not end with that key.
proof fn lemma_no_pat_match(key: Seq<char>, v: Seq<char>, other: Seq<char>, pat: Seq<char>)
    requires
        spec_key_ok(key),
        spec_value_ok(v),
        other.len() > 0,
        pat.len() >= other.len() + 1,
        pat[pat.len() - 1] == '=',
        pat.subrange(pat.len() - 1 - other.len(), pat.len() - 1) == other,
        other.len() > 7 + key.len() || other != ("export "@ + key).subrange(
            7 + key.len() - other.len(),
            7 + key.len() as int,
        ),
    ensures
        forall|i: int| !match_at(spec_line_body(key, v), pat, i),
{
    reveal_strlit("export ");
    let b = spec_line_body(key, v);
    let sk = "export "@ + key;
    lemma_body_chars(key, v);
    assert forall|i: int| !match_at(b, pat, i) by {
        if match_at(b, pat, i) {
            let plen = pat.len() as int;
            assert(b.subrange(i, i + plen) == pat);
            assert(b.subrange(i, i + plen)[plen - 1] == b[i + plen - 1]);
            assert(b[i + plen - 1] == '=');
            let epos = 7 + key.len() as int;
            assert(i + plen - 1 == epos);
            if other.len() > 7 + key.len() {
                assert(plen >= other.len() + 1);
                assert(i < 0);
            } else {
                assert(b.subrange(i, i + plen).subrange(plen - 1 - other.len(), plen - 1)
                    =~= b.subrange(epos - other.len(), epos));
                assert(b.subrange(epos - other.len(), epos) == other);
                assert(sk.len() == epos);
                assert(b.subrange(epos - other.len(), epos) =~= sk.subrange(
                    sk.len() - other.len(),
                    sk.len() as int,
                ));
                assert(false);
            }
        }
    }
}

/// A line body carries no value for a key that its prefix does not end
/// with.
proof fn lemma_extract_other(key: Seq<char>, v: Seq<char>, other: Seq<char>)
    requires
        spec_key_ok(key),
        spec_value_ok(v),
        spec_key_ok(other),
        other.len() > 7 + key.len() || other != ("export "@ + key).subrange(
            7 + key.len() - other.len(),
            7 + key.len() as int,
        ),
    ensures
        spec_extract(spec_line_body(key, v), other) is None,
{
    reveal_strlit("export ");
    reveal_strlit("set ");
    reveal_strlit("=");
    let b = spec_line_body(key, v);
    let p1 = spec_pat_export(other);
    assert(p1.len() == 8 + other.len());
    assert(p1[p1.len() - 1] == "="@[0]);
    assert(p1.subrange(p1.len() - 1 - other.len(), p1.len() - 1) =~= other);
    lemma_no_pat_match(key, v, other, p1);
    lemma_find_sub_none(b, p1);
    let p2 = spec_pat_set(other);
    assert(p2.len() == 5 + other.len());
    assert(p2[p2.len() - 1] == "="@[0]);
    assert(p2.subrange(p2.len() - 1 - other.len(), p2.len() - 1) =~= other);
    lemma_no_pat_match(key, v, other, p2);
    lemma_find_sub_none(b, p2);
    let p3 = spec_pat_bare(other);
    assert(p3.len() == 1 + other.len());
    assert(p3[p3.len() - 1] == "="@[0]);
    assert(p3.subrange(p3.len() - 1 - other.len(), p3.len() - 1) =~= other);
    lemma_no_pat_match(key, v, other, p3);
    lemma_find_sub_none(b, p3);
}

/// The parser is the inverse of the serializer: parsing a record's own
/// serialized shape reproduces the record exactly, for every record whose
/// string fields are plain (no newline, no quote of either kind, no `=`).
/// In particular, parsing the serialized defaults reproduces the defaults.
#[verifier::rlimit(100)]
pub proof fn lemma_parse_serialize_roundtrip(e: FnmEnvView)
    requires
        spec_env_plain(e),
    ensures
        spec_parse_env(spec_serialize_env(e)) == e,
{
    reveal_strlit("export ");
    reveal_strlit("true");
    reveal_strlit("false");
    reveal_strlit("FNM_DIR");
    reveal_strlit("FNM_NODE_DIST_MIRROR");
    reveal_strlit("FNM_VERSION_FILE_STRATEGY");
    reveal_strlit("FNM_COREPACK_ENABLED");
    reveal_strlit("FNM_RESOLVE_ENGINES");
    reveal_strlit("FNM_ARCH");
    reveal_strlit("FNM_LOGLEVEL");
    let k1 = "FNM_DIR"@;
    let k2 = "FNM_NODE_DIST_MIRROR"@;
    let k3 = "FNM_VERSION_FILE_STRATEGY"@;
    let k4 = "FNM_COREPACK_ENABLED"@;
    let k5 = "FNM_RESOLVE_ENGINES"@;
    let k6 = "FNM_ARCH"@;
    let k7 = "FNM_LOGLEVEL"@;
    assert(spec_key_ok(k1));
    assert(spec_key_ok(k2));
    assert(spec_key_ok(k3));
    assert(spec_key_ok(k4));
    assert(spec_key_ok(k5));
    assert(spec_key_ok(k6));
    assert(spec_key_ok(k7));
    let v1 = e.fnm_dir;
    let v2 = e.node_dist_mirror;
    let v3 = e.version_file_strategy;
    let v4 = spec_bool_token(e.corepack_enabled);
    let v5 = spec_bool_token(e.resolve_engines);
    let v6 = e.arch;
    let v7 = e.loglevel;
    assert(spec_value_ok("true"@));
    assert(spec_value_ok("false"@));
    assert(spec_value_ok(v4));
    assert(spec_value_ok(v5));
    assert(spec_is_true_token("true"@));
    assert("false"@.len() == 5);
    assert(seq!['1'].len() == 1);
    assert("false"@ != seq!['1']);
    assert(!spec_is_true_token("false"@));
    assert(spec_is_true_token(v4) == e.corepack_enabled);
    assert(spec_is_true_token(v5) == e.resolve_engines);
    let b1 = spec_line_body(k1, v1);
    let b2 = spec_line_body(k2, v2);
    let b3 = spec_line_body(k3, v3);
    let b4 = spec_line_body(k4, v4);
    let b5 = spec_line_body(k5, v5);
    let b6 = spec_line_body(k6, v6);
    let b7 = spec_line_body(k7, v7);
    lemma_body_chars(k1, v1);
    lemma_body_chars(k2, v2);
    lemma_body_chars(k3, v3);
    lemma_body_chars(k4, v4);
    lemma_body_chars(k5, v5);
    lemma_body_chars(k6, v6);
    lemma_body_chars(k7, v7);
    lemma_quoted_line_shape(k1, v1);
    lemma_quoted_line_shape(k2, v2);
    lemma_quoted_line_shape(k3, v3);
    lemma_quoted_line_shape(k4, v4);
    lemma_quoted_line_shape(k5, v5);
    lemma_quoted_line_shape(k6, v6);
    lemma_quoted_line_shape(k7, v7);
    let q1 = spec_quoted_line(k1, v1);
    let q2 = spec_quoted_line(k2, v2);
    let q3 = spec_quoted_line(k3, v3);
    let q4 = spec_quoted_line(k4, v4);
    let q5 = spec_quoted_line(k5, v5);
    let q6 = spec_quoted_line(k6, v6);
    let q7 = spec_quoted_line(k7, v7);
    let text = spec_serialize_env(e);
    let r2 = q2 + q3 + q4 + q5 + q6 + q7;
    let r3 = q3 + q4 + q5 + q6 + q7;
    let r4 = q4 + q5 + q6 + q7;
    let r5 = q5 + q6 + q7;
    let r6 = q6 + q7;
    let r7 = q7;
    let r8 = Seq::<char>::empty();
    assert(text =~= b1 + seq!['\n'] + r2);
    assert(r2 =~= b2 + seq!['\n'] + r3);
    assert(r3 =~= b3 + seq!['\n'] + r4);
    assert(r4 =~= b4 + seq!['\n'] + r5);
    assert(r5 =~= b5 + seq!['\n'] + r6);
    assert(r6 =~= b6 + seq!['\n'] + r7);
    assert(r7 =~= b7 + seq!['\n'] + r8);
    lemma_lines_prepend(b1, r2);
    lemma_lines_prepend(b2, r3);
    lemma_lines_prepend(b3, r4);
    lemma_lines_prepend(b4, r5);
    lemma_lines_prepend(b5, r6);
    lemma_lines_prepend(b6, r7);
    lemma_lines_prepend(b7, r8);
    assert(spec_lines(r8) =~= Seq::<Seq<char>>::empty());
    let lines = spec_lines(text);
    assert(lines =~~= seq![b1, b2, b3, b4, b5, b6, b7]);
    // Each line trims to itself: it starts with a letter and ends with a
    // quote.
    lemma_trim_identity(b1);
    lemma_trim_identity(b2);
    lemma_trim_identity(b3);
    lemma_trim_identity(b4);
    lemma_trim_identity(b5);
    lemma_trim_identity(b6);
    lemma_trim_identity(b7);
    // Each line carries its own key's value ...
    lemma_extract_own(k1, v1);
    lemma_extract_own(k2, v2);
    lemma_extract_own(k3, v3);
    lemma_extract_own(k4, v4);
    lemma_extract_own(k5, v5);
    lemma_extract_own(k6, v6);
    lemma_extract_own(k7, v7);
    // ... and no value for any key checked before it. A pattern for a key
    // must sit right before the line's only `=`, so it cannot match unless
    // the key is a suffix of the line's `export KEY` prefix; a differing
    // character witnesses each non-suffix.
    let sk2 = "export "@ + k2;
    assert(sk2.subrange(20, 27)[0] == k2[13]);
    assert(k1 != sk2.subrange(20, 27));
    lemma_extract_other(k2, v2, k1);
    let sk3 = "export "@ + k3;
    assert(sk3.subrange(25, 32)[0] == k3[18]);
    assert(k1 != sk3.subrange(25, 32));
    lemma_extract_other(k3, v3, k1);
    assert(sk3.subrange(12, 32)[0] == k3[5]);
    assert(k2 != sk3.subrange(12, 32));
    lemma_extract_other(k3, v3, k2);
    let sk4 = "export "@ + k4;
    assert(sk4.subrange(20, 27)[0] == k4[13]);
    assert(k1 != sk4.subrange(20, 27));
    lemma_extract_other(k4, v4, k1);
    assert(sk4.subrange(7, 27)[4] == k4[4]);
    assert(k2 != sk4.subrange(7, 27));
    lemma_extract_other(k4, v4, k2);
    assert(sk4.subrange(2, 27)[0] == "export "@[2]);
    assert(k3 != sk4.subrange(2, 27));
    lemma_extract_other(k4, v4, k3);
    let sk5 = "export "@ + k5;
    assert(sk5.subrange(19, 26)[0] == k5[12]);
    assert(k1 != sk5.subrange(19, 26));
    lemma_extract_other(k5, v5, k1);
    assert(sk5.subrange(6, 26)[0] == "export "@[6]);
    assert(k2 != sk5.subrange(6, 26));
    lemma_extract_other(k5, v5, k2);
    assert(sk5.subrange(1, 26)[0] == "export "@[1]);
    assert(k3 != sk5.subrange(1, 26));
    lemma_extract_other(k5, v5, k3);
    assert(k4 != sk5.subrange(6, 26));
    lemma_extract_other(k5, v5, k4);
    let sk6 = "export "@ + k6;
    assert(sk6.subrange(8, 15)[0] == k6[1]);
    assert(k1 != sk6.subrange(8, 15));
    lemma_extract_other(k6, v6, k1);
    lemma_extract_other(k6, v6, k2);
    lemma_extract_other(k6, v6, k3);
    lemma_extract_other(k6, v6, k4);
    lemma_extract_other(k6, v6, k5);
    let sk7 = "export "@ + k7;
    assert(sk7.subrange(12, 19)[0] == k7[5]);
    assert(k1 != sk7.subrange(12, 19));
    lemma_extract_other(k7, v7, k1);
    lemma_extract_other(k7, v7, k2);
    lemma_extract_other(k7, v7, k3);
    lemma_extract_other(k7, v7, k4);
    assert(sk7.subrange(0, 19)[0] == "export "@[0]);
    assert(k5 != sk7.subrange(0, 19));
    lemma_extract_other(k7, v7, k5);
    assert(sk7.subrange(11, 19)[0] == k7[4]);
    assert(k6 != sk7.subrange(11, 19));
    lemma_extract_other(k7, v7, k6);
    // Fold the seven lines through the parse, one step at a time.
    let st0 = (spec_default_env(), spec_no_keys_seen());
    let st1 = spec_apply_line(st0.0, st0.1, b1);
    let st2 = spec_apply_line(st1.0, st1.1, b2);
    let st3 = spec_apply_line(st2.0, st2.1, b3);
    let st4 = spec_apply_line(st3.0, st3.1, b4);
    let st5 = spec_apply_line(st4.0, st4.1, b5);
    let st6 = spec_apply_line(st5.0, st5.1, b6);
    let st7 = spec_apply_line(st6.0, st6.1, b7);
    assert(st1.0.fnm_dir == v1 && st1.0.node_dist_mirror == st0.0.node_dist_mirror);
    assert(st2.0.node_dist_mirror == v2);
    assert(st3.0.version_file_strategy == v3);
    assert(st4.0.corepack_enabled == e.corepack_enabled);
    assert(st5.0.resolve_engines == e.resolve_engines);
    assert(st6.0.arch == v6);
    assert(st7.0.loglevel == v7);
    let t1 = seq![b2, b3, b4, b5, b6, b7];
    let t2 = seq![b3, b4, b5, b6, b7];
    let t3 = seq![b4, b5, b6, b7];
    let t4 = seq![b5, b6, b7];
    let t5 = seq![b6, b7];
    let t6 = seq![b7];
    let t7 = Seq::<Seq<char>>::empty();
    assert(lines.drop_first() =~~= t1);
    assert(t1.drop_first() =~~= t2);
    assert(t2.drop_first() =~~= t3);
    assert(t3.drop_first() =~~= t4);
    assert(t4.drop_first() =~~= t5);
    assert(t5.drop_first() =~~= t6);
    assert(t6.drop_first() =~~= t7);
    assert(spec_parse_lines(st0.0, st0.1, lines) == spec_parse_lines(st1.0, st1.1, t1));
    assert(spec_parse_lines(st1.0, st1.1, t1) == spec_parse_lines(st2.0, st2.1, t2));
    assert(spec_parse_lines(st2.0, st2.1, t2) == spec_parse_lines(st3.0, st3.1, t3));
    assert(spec_parse_lines(st3.0, st3.1, t3) == spec_parse_lines(st4.0, st4.1, t4));
    assert(spec_parse_lines(st4.0, st4.1, t4) == spec_parse_lines(st5.0, st5.1, t5));
    assert(spec_parse_lines(st5.0, st5.1, t5) == spec_parse_lines(st6.0, st6.1, t6));
    assert(spec_parse_lines(st6.0, st6.1, t6) == spec_parse_lines(st7.0, st7.1, t7));
    assert(spec_parse_lines(st7.0, st7.1, t7) == st7);
    assert(spec_parse_env(text) == st7.0);
    assert(st7.0 == e);
}

/// Serializes a record into the shell-export shape the parser reads.
pub fn serialize_env(env: &FnmEnv) -> (r: String)
    ensures
        r@ == spec_serialize_env(env@),
{
    let mut out = String::new();
    push_quoted_line(&mut out, "FNM_DIR", env.fnm_dir.as_str());
    push_quoted_line(&mut out, "FNM_NODE_DIST_MIRROR", env.node_dist_mirror.as_str());
    push_quoted_line(&mut out, "FNM_VERSION_FILE_STRATEGY", env.version_file_strategy.as_str());
    push_quoted_line(&mut out, "FNM_COREPACK_ENABLED", bool_token(env.corepack_enabled));
    push_quoted_line(&mut out, "FNM_RESOLVE_ENGINES", bool_token(env.resolve_engines));
    push_quoted_line(&mut out, "FNM_ARCH", env.arch.as_str());
    push_quoted_line(&mut out, "FNM_LOGLEVEL", env.loglevel.as_str());
    out
}

} // verus!
