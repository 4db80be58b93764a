//! Verified text primitives the output parser is built on: whitespace
//! trimming, stripping of quote and separator characters, substring search,
//! and splitting into lines.

use vstd::prelude::*;
use vstd::string::*;

verus! {

/// The whitespace characters the trimmer removes.
pub open spec fn is_ws(c: char) -> bool {
    c == ' ' || c == '\t' || c == '\r' || c == '\n'
}

pub open spec fn spec_trim_start(s: Seq<char>) -> Seq<char>
    decreases s.len(),
{
    if s.len() > 0 && is_ws(s[0]) {
        spec_trim_start(s.drop_first())
    } else {
        s
    }
}

pub open spec fn spec_trim_end(s: Seq<char>) -> Seq<char>
    decreases s.len(),
{
    if s.len() > 0 && is_ws(s[s.len() - 1]) {
        spec_trim_end(s.drop_last())
    } else {
        s
    }
}

/// The sequence with leading and trailing whitespace removed.
pub open spec fn spec_trim(s: Seq<char>) -> Seq<char> {
    spec_trim_end(spec_trim_start(s))
}

proof fn lemma_trim_start_subrange(s: Seq<char>, i: int)
    requires
        0 <= i <= s.len(),
        forall|k: int| 0 <= k < i ==> is_ws(s[k]),
        i < s.len() ==> !is_ws(s[i]),
    ensures
        spec_trim_start(s) == s.subrange(i, s.len() as int),
    decreases i,
{
    if i == 0 {
        assert(s.subrange(0, s.len() as int) =~= s);
    } else {
        let t = s.drop_first();
        assert(t =~= s.subrange(1, s.len() as int));
        lemma_trim_start_subrange(t, i - 1);
        assert(t.subrange(i - 1, t.len() as int) =~= s.subrange(i, s.len() as int));
    }
}

proof fn lemma_trim_end_subrange(s: Seq<char>, j: int)
    requires
        0 <= j <= s.len(),
        forall|k: int| j <= k < s.len() ==> is_ws(s[k]),
        j > 0 ==> !is_ws(s[j - 1]),
    ensures
        spec_trim_end(s) == s.subrange(0, j),
    decreases s.len() - j,
{
    if j == s.len() {
        assert(s.subrange(0, j) =~= s);
    } else {
        let t = s.drop_last();
        assert(t =~= s.subrange(0, s.len() - 1));
        lemma_trim_end_subrange(t, j);
        assert(t.subrange(0, j) =~= s.subrange(0, j));
    }
}

/// Trimming does not change a sequence whose ends are not whitespace.
pub proof fn lemma_trim_identity(s: Seq<char>)
    requires
        s.len() > 0,
        !is_ws(s[0]),
        !is_ws(s[s.len() - 1]),
    ensures
        spec_trim(s) == s,
{
    assert(spec_trim_start(s) == s);
    assert(spec_trim_end(s) == s);
}

fn is_ws_char(c: char) -> (r: bool)
    ensures
        r == is_ws(c),
{
    c == ' ' || c == '\t' || c == '\r' || c == '\n'
}

/// Removes leading and trailing whitespace.
pub fn trim_ws(s: &str) -> (r: String)
    ensures
        r@ == spec_trim(s@),
{
    let n = s.unicode_len();
    let mut i: usize = 0;
    while i < n && is_ws_char(s.get_char(i))
        invariant
            0 <= i <= n,
            n == s@.len(),
            forall|k: int| 0 <= k < i ==> is_ws(s@[k]),
        decreases n - i,
    {
        i = i + 1;
    }
    proof {
        lemma_trim_start_subrange(s@, i as int);
    }
    let mut j: usize = n;
    while j > i && is_ws_char(s.get_char(j - 1))
        invariant
            i <= j <= n,
            n == s@.len(),
            forall|k: int| j <= k < n ==> is_ws(s@[k]),
            spec_trim_start(s@) == s@.subrange(i as int, n as int),
        decreases j,
    {
        j = j - 1;
    }
    proof {
        let head = s@.subrange(i as int, n as int);
        lemma_trim_end_subrange(head, j - i);
        assert(head.subrange(0, j - i) =~= s@.subrange(i as int, j as int));
    }
    let out = s.substring_char(i, j);
    String::from_str(out)
}

pub open spec fn spec_strip_start_c(s: Seq<char>, c: char) -> Seq<char>
    decreases s.len(),
{
    if s.len() > 0 && s[0] == c {
        spec_strip_start_c(s.drop_first(), c)
    } else {
        s
    }
}

pub open spec fn spec_strip_end_c(s: Seq<char>, c: char) -> Seq<char>
    decreases s.len(),
{
    if s.len() > 0 && s[s.len() - 1] == c {
        spec_strip_end_c(s.drop_last(), c)
    } else {
        s
    }
}

/// The sequence with every leading and trailing occurrence of `c` removed.
pub open spec fn spec_strip_both_c(s: Seq<char>, c: char) -> Seq<char> {
    spec_strip_end_c(spec_strip_start_c(s, c), c)
}

proof fn lemma_strip_start_subrange(s: Seq<char>, c: char, i: int)
    requires
        0 <= i <= s.len(),
        forall|k: int| 0 <= k < i ==> s[k] == c,
        i < s.len() ==> s[i] != c,
    ensures
        spec_strip_start_c(s, c) == s.subrange(i, s.len() as int),
    decreases i,
{
    if i == 0 {
        assert(s.subrange(0, s.len() as int) =~= s);
    } else {
        let t = s.drop_first();
        assert(t =~= s.subrange(1, s.len() as int));
        lemma_strip_start_subrange(t, c, i - 1);
        assert(t.subrange(i - 1, t.len() as int) =~= s.subrange(i, s.len() as int));
    }
}

proof fn lemma_strip_end_subrange(s: Seq<char>, c: char, j: int)
    requires
        0 <= j <= s.len(),
        forall|k: int| j <= k < s.len() ==> s[k] == c,
        j > 0 ==> s[j - 1] != c,
    ensures
        spec_strip_end_c(s, c) == s.subrange(0, j),
    decreases s.len() - j,
{
    if j == s.len() {
        assert(s.subrange(0, j) =~= s);
    } else {
        let t = s.drop_last();
        assert(t =~= s.subrange(0, s.len() - 1));
        lemma_strip_end_subrange(t, c, j);
        assert(t.subrange(0, j) =~= s.subrange(0, j));
    }
}

/// Removes every trailing occurrence of `c`.
pub fn strip_end_c(s: &str, c: char) -> (r: String)
    ensures
        r@ == spec_strip_end_c(s@, c),
{
    let n = s.unicode_len();
    let mut j: usize = n;
    while j > 0 && s.get_char(j - 1) == c
        invariant
            0 <= j <= n,
            n == s@.len(),
            forall|k: int| j <= k < n ==> s@[k] == c,
        decreases j,
    {
        j = j - 1;
    }
    proof {
        lemma_strip_end_subrange(s@, c, j as int);
    }
    let out = s.substring_char(0, j);
    String::from_str(out)
}

/// Removes every leading and every trailing occurrence of `c`.
pub fn strip_both_c(s: &str, c: char) -> (r: String)
    ensures
        r@ == spec_strip_both_c(s@, c),
{
    let n = s.unicode_len();
    let mut i: usize = 0;
    while i < n && s.get_char(i) == c
        invariant
            0 <= i <= n,
            n == s@.len(),
            forall|k: int| 0 <= k < i ==> s@[k] == c,
        decreases n - i,
    {
        i = i + 1;
    }
    proof {
        lemma_strip_start_subrange(s@, c, i as int);
    }
    let mut j: usize = n;
    while j > i && s.get_char(j - 1) == c
        invariant
            i <= j <= n,
            n == s@.len(),
            forall|k: int| j <= k < n ==> s@[k] == c,
            spec_strip_start_c(s@, c) == s@.subrange(i as int, n as int),
        decreases j,
    {
        j = j - 1;
    }
    proof {
        let head = s@.subrange(i as int, n as int);
        lemma_strip_end_subrange(head, c, j - i);
        assert(head.subrange(0, j - i) =~= s@.subrange(i as int, j as int));
    }
    let out = s.substring_char(i, j);
    String::from_str(out)
}

/// `p` occurs in `s` at position `i`.
pub open spec fn match_at(s: Seq<char>, p: Seq<char>, i: int) -> bool {
    0 <= i && i + p.len() <= s.len() && s.subrange(i, i + p.len()) == p
}

/// The position of the first occurrence of `p` in `s`.
pub open spec fn spec_find_sub(s: Seq<char>, p: Seq<char>) -> Option<int>
    decreases s.len(),
{
    if match_at(s, p, 0) {
        Some(0int)
    } else if s.len() == 0 {
        None
    } else {
        match spec_find_sub(s.drop_first(), p) {
            Some(i) => Some(i + 1),
            None => None,
        }
    }
}

proof fn lemma_match_at_shift(s: Seq<char>, p: Seq<char>, j: int)
    requires
        s.len() > 0,
        0 <= j,
    ensures
        match_at(s.drop_first(), p, j) == match_at(s, p, j + 1),
{
    let t = s.drop_first();
    if 0 <= j && j + p.len() <= t.len() {
        assert(t.subrange(j, j + p.len() as int) =~= s.subrange(j + 1, j + 1 + p.len() as int));
    }
}

pub proof fn lemma_find_sub_from_witness(s: Seq<char>, p: Seq<char>, i: int)
    requires
        match_at(s, p, i),
        forall|j: int| 0 <= j < i ==> !match_at(s, p, j),
    ensures
        spec_find_sub(s, p) == Some(i),
    decreases s.len(),
{
    if i == 0 {
    } else {
        assert(!match_at(s, p, 0));
        assert(s.len() > 0);
        let t = s.drop_first();
        lemma_match_at_shift(s, p, i - 1);
        assert forall|j: int| 0 <= j < i - 1 implies !match_at(t, p, j) by {
            lemma_match_at_shift(s, p, j);
        }
        lemma_find_sub_from_witness(t, p, i - 1);
    }
}

pub proof fn lemma_find_sub_none(s: Seq<char>, p: Seq<char>)
    requires
        forall|j: int| !match_at(s, p, j),
    ensures
        spec_find_sub(s, p) is None,
    decreases s.len(),
{
    assert(!match_at(s, p, 0));
    if s.len() > 0 {
        let t = s.drop_first();
        assert forall|j: int| !match_at(t, p, j) by {
            if 0 <= j {
                lemma_match_at_shift(s, p, j);
            }
        }
        lemma_find_sub_none(t, p);
    }
}

/// The properties that characterize `spec_find_sub`.
pub proof fn lemma_find_sub_props(s: Seq<char>, p: Seq<char>)
    ensures
        match spec_find_sub(s, p) {
            Some(i) => match_at(s, p, i) && forall|j: int| 0 <= j < i ==> !match_at(s, p, j),
            None => forall|j: int| !match_at(s, p, j),
        },
    decreases s.len(),
{
    if match_at(s, p, 0) {
    } else if s.len() == 0 {
        assert forall|j: int| !match_at(s, p, j) by {
            if 0 <= j && j + p.len() <= s.len() {
                assert(j == 0);
            }
        }
    } else {
        let t = s.drop_first();
        lemma_find_sub_props(t, p);
        match spec_find_sub(t, p) {
            Some(i) => {
                lemma_match_at_shift(s, p, i);
                assert forall|j: int| 0 <= j < i + 1 implies !match_at(s, p, j) by {
                    if j > 0 {
                        lemma_match_at_shift(s, p, j - 1);
                    }
                }
            },
            None => {
                assert forall|j: int| !match_at(s, p, j) by {
                    if j > 0 {
                        lemma_match_at_shift(s, p, j - 1);
                    } else if j < 0 {
                    }
                }
            },
        }
    }
}

fn matches_at(s: &str, p: &str, i: usize) -> (r: bool)
    requires
        i + p@.len() <= s@.len(),
        s@.len() <= usize::MAX,
    ensures
        r == match_at(s@, p@, i as int),
{
    let plen = p.unicode_len();
    let mut k: usize = 0;
    while k < plen
        invariant
            0 <= k <= plen,
            plen == p@.len(),
            i + plen <= s@.len(),
            s@.len() <= usize::MAX,
            forall|m: int| 0 <= m < k ==> s@[i + m] == p@[m],
        decreases plen - k,
    {
        if s.get_char(i + k) != p.get_char(k) {
            assert(s@.subrange(i as int, i + plen) != p@) by {
                assert(s@.subrange(i as int, i + plen)[k as int] != p@[k as int]);
            }
            return false;
        }
        k = k + 1;
    }
    proof {
        assert(s@.subrange(i as int, i + plen) =~= p@);
    }
    true
}

/// The position of the first occurrence of `p` in `s`, if any.
pub fn find_sub(s: &str, p: &str) -> (r: Option<usize>)
    ensures
        r matches Some(i) ==> spec_find_sub(s@, p@) == Some(i as int),
        r is None ==> spec_find_sub(s@, p@) is None,
{
    let n = s.unicode_len();
    let plen = p.unicode_len();
    if plen == 0 {
        proof {
            assert(s@.subrange(0, 0) =~= p@);
            lemma_find_sub_from_witness(s@, p@, 0);
        }
        return Some(0);
    }
    if plen > n {
        proof {
            assert forall|j: int| !match_at(s@, p@, j) by {}
            lemma_find_sub_none(s@, p@);
        }
        return None;
    }
    let mut i: usize = 0;
    while i <= n - plen
        invariant
            0 <= i <= n - plen + 1,
            1 <= plen <= n,
            n == s@.len(),
            plen == p@.len(),
            forall|j: int| 0 <= j < i ==> !match_at(s@, p@, j),
        decreases n - i,
    {
        if matches_at(s, p, i) {
            proof {
                lemma_find_sub_from_witness(s@, p@, i as int);
            }
            return Some(i);
        }
        i = i + 1;
    }
    proof {
        assert forall|j: int| !match_at(s@, p@, j) by {
            if 0 <= j && j + p@.len() <= s@.len() {
                assert(j < i);
            }
        }
        lemma_find_sub_none(s@, p@);
    }
    None
}

/// The position of the first occurrence of the character `c` in `s`.
pub open spec fn spec_find_c(s: Seq<char>, c: char) -> Option<int>
    decreases s.len(),
{
    if s.len() == 0 {
        None
    } else if s[0] == c {
        Some(0int)
    } else {
        match spec_find_c(s.drop_first(), c) {
            Some(i) => Some(i + 1),
            None => None,
        }
    }
}

pub proof fn lemma_find_c_props(s: Seq<char>, c: char)
    ensures
        match spec_find_c(s, c) {
            Some(i) => 0 <= i < s.len() && s[i] == c && forall|k: int| 0 <= k < i ==> s[k] != c,
            None => forall|k: int| 0 <= k < s.len() ==> s[k] != c,
        },
    decreases s.len(),
{
    if s.len() == 0 {
    } else if s[0] == c {
    } else {
        let t = s.drop_first();
        lemma_find_c_props(t, c);
        match spec_find_c(t, c) {
            Some(i) => {
                assert(s[i + 1] == t[i]);
                assert forall|k: int| 0 <= k < i + 1 implies s[k] != c by {
                    if k > 0 {
                        assert(s[k] == t[k - 1]);
                    }
                }
            },
            None => {
                assert forall|k: int| 0 <= k < s.len() implies s[k] != c by {
                    if k > 0 {
                        assert(s[k] == t[k - 1]);
                    }
                }
            },
        }
    }
}

pub proof fn lemma_find_c_from_witness(s: Seq<char>, c: char, i: int)
    requires
        0 <= i < s.len(),
        s[i] == c,
        forall|k: int| 0 <= k < i ==> s[k] != c,
    ensures
        spec_find_c(s, c) == Some(i),
    decreases i,
{
    if i > 0 {
        let t = s.drop_first();
        assert(t[i - 1] == s[i]);
        assert forall|k: int| 0 <= k < i - 1 implies t[k] != c by {
            assert(t[k] == s[k + 1]);
        }
        lemma_find_c_from_witness(t, c, i - 1);
    }
}

pub proof fn lemma_find_c_none(s: Seq<char>, c: char)
    requires
        forall|k: int| 0 <= k < s.len() ==> s[k] != c,
    ensures
        spec_find_c(s, c) is None,
    decreases s.len(),
{
    if s.len() > 0 {
        lemma_find_c_none(s.drop_first(), c);
    }
}

/// The lines of `s`: the segments between `\n` characters, the final segment
/// dropped when it is empty. This matches how the standard library splits a
/// string into lines, except that a trailing carriage return stays on the
/// line (callers trim each line).
pub open spec fn spec_lines(s: Seq<char>) -> Seq<Seq<char>>
    decreases s.len(),
    via spec_lines_dec
{
    if s.len() == 0 {
        Seq::empty()
    } else {
        match spec_find_c(s, '\n') {
            None => seq![s],
            Some(i) => seq![s.subrange(0, i)] + spec_lines(s.subrange(i + 1, s.len() as int)),
        }
    }
}

#[via_fn]
proof fn spec_lines_dec(s: Seq<char>) {
    lemma_find_c_props(s, '\n');
}

/// Splits `s` into its lines.
pub fn split_lines(s: &str) -> (r: Vec<String>)
    ensures
        r.deep_view() == spec_lines(s@),
{
    let n = s.unicode_len();
    let mut out: Vec<String> = Vec::new();
    let mut start: usize = 0;
    let mut i: usize = 0;
    proof {
        assert(s@.subrange(0, n as int) =~= s@);
        assert(out.deep_view() =~~= Seq::<Seq<char>>::empty());
        assert(out.deep_view() + spec_lines(s@) =~~= spec_lines(s@));
    }
    while i < n
        invariant
            0 <= start <= i <= n,
            n == s@.len(),
            forall|k: int| start <= k < i ==> s@[k] != '\n',
            spec_lines(s@) == out.deep_view() + spec_lines(s@.subrange(start as int, n as int)),
        decreases n - i,
    {
        if s.get_char(i) == '\n' {
            let line = s.substring_char(start, i);
            proof {
                let rem = s@.subrange(start as int, n as int);
                assert(rem[i - start] == s@[i as int]);
                assert forall|k: int| 0 <= k < i - start implies rem[k] != '\n' by {
                    assert(rem[k] == s@[start + k]);
                }
                lemma_find_c_from_witness(rem, '\n', i - start);
                assert(rem.subrange(0, i - start) =~= s@.subrange(start as int, i as int));
                assert(rem.subrange(i - start + 1, rem.len() as int) =~= s@.subrange(
                    i + 1,
                    n as int,
                ));
            }
            let ghost old_dv = out.deep_view();
            out.push(String::from_str(line));
            proof {
                assert(out.deep_view() =~~= old_dv.push(s@.subrange(start as int, i as int)));
                assert(spec_lines(s@) =~~= out.deep_view() + spec_lines(
                    s@.subrange(i + 1, n as int),
                ));
            }
            start = i + 1;
        }
        i = i + 1;
    }
    if start < n {
        let line = s.substring_char(start, n);
        proof {
            let rem = s@.subrange(start as int, n as int);
            assert forall|k: int| 0 <= k < rem.len() implies rem[k] != '\n' by {
                assert(rem[k] == s@[start + k]);
            }
            lemma_find_c_none(rem, '\n');
            assert(spec_lines(rem) == seq![rem]);
        }
        let ghost old_dv = out.deep_view();
        out.push(String::from_str(line));
        proof {
            assert(out.deep_view() =~~= old_dv.push(s@.subrange(start as int, n as int)));
            assert(spec_lines(s@) =~~= out.deep_view());
        }
    } else {
        proof {
            let rem = s@.subrange(start as int, n as int);
            assert(rem.len() == 0);
            assert(spec_lines(s@) =~~= out.deep_view());
        }
    }
    out
}

/// The concatenation of two string slices.
pub fn concat_str(a: &str, b: &str) -> (r: String)
    ensures
        r@ == a@ + b@,
{
    let mut out = String::from_str(a);
    out.append(b);
    out
}

/// String equality through the view.
pub fn str_eq(a: &str, b: &str) -> (r: bool)
    ensures
        r == (a@ == b@),
{
    let s1 = String::from_str(a);
    let s2 = String::from_str(b);
    s1 == s2
}

} // verus!
