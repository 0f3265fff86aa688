//! Verified string utilities the pipeline is built on: equality, substring
//! search, whitespace splitting and joining, and path assembly.
//!
//! The user-facing override values are split on plain whitespace with no
//! quoting support; that limitation is part of the observable behaviour and
//! is preserved here, with the exact splitting rule written down as a spec
//! function.

use vstd::prelude::*;

verus! {

/// The characters the splitting rule treats as whitespace.
pub open spec fn is_ws(c: char) -> bool {
    c == ' ' || c == '\t' || c == '\n' || c == '\r'
}

/// Runtime test for [`is_ws`].
pub fn is_whitespace_char(c: char) -> (r: bool)
    ensures
        r == is_ws(c),
{
    c == ' ' || c == '\t' || c == '\n' || c == '\r'
}

/// Character-wise string equality, decided without trusting any outside code.
pub fn str_eq(a: &str, b: &str) -> (r: bool)
    ensures
        r == (a@ == b@),
{
    let n = a.unicode_len();
    let m = b.unicode_len();
    if n != m {
        return false;
    }
    let mut i: usize = 0;
    while i < n
        invariant
            n == a@.len(),
            n == b@.len(),
            i <= n,
            forall|j: int| 0 <= j < i ==> a@[j] == b@[j],
        decreases n - i,
    {
        if a.get_char(i) != b.get_char(i) {
            return false;
        }
        i += 1;
    }
    proof {
        assert(a@ =~= b@);
    }
    true
}

/// End of the run of non-whitespace characters that starts at `i`: the first
/// index at or after `i` holding whitespace, or the length of `s`.
pub open spec fn token_end(s: Seq<char>, i: int) -> int
    decreases s.len() - i,
{
    if i >= s.len() || is_ws(s[i]) {
        i
    } else {
        token_end(s, i + 1)
    }
}

pub proof fn lemma_token_end_bounds(s: Seq<char>, i: int)
    requires
        0 <= i <= s.len(),
    ensures
        i <= token_end(s, i) <= s.len(),
    decreases s.len() - i,
{
    if !(i >= s.len() || is_ws(s[i])) {
        lemma_token_end_bounds(s, i + 1);
    }
}

/// `token_end` is the unique `j` bounding a non-whitespace run that is
/// maximal to the right.
pub proof fn lemma_token_end_at(s: Seq<char>, i: int, j: int)
    requires
        0 <= i <= j <= s.len(),
        forall|k: int| i <= k < j ==> !is_ws(s[k]),
        j == s.len() || is_ws(s[j]),
    ensures
        token_end(s, i) == j,
    decreases j - i,
{
    if i < j {
        lemma_token_end_at(s, i + 1, j);
    }
}

/// The whitespace-split of `s` from index `i` on: the sequence of maximal
/// runs of non-whitespace characters, in order.  No quoting, no escaping.
pub open spec fn split_from(s: Seq<char>, i: int) -> Seq<Seq<char>>
    decreases s.len() - i,
{
    if i < 0 || i >= s.len() {
        Seq::empty()
    } else if is_ws(s[i]) {
        split_from(s, i + 1)
    } else {
        proof {
            lemma_token_end_bounds(s, i + 1);
        }
        seq![s.subrange(i, token_end(s, i))] + split_from(s, token_end(s, i))
    }
}

/// The whitespace-split of a whole string.
pub open spec fn split_ws_spec(s: Seq<char>) -> Seq<Seq<char>> {
    split_from(s, 0)
}

/// Split `s` into its whitespace-separated tokens.  This is the only parsing
/// ever applied to the user-facing override values; quotes are not
/// interpreted.
pub fn split_whitespace(s: &str) -> (r: Vec<String>)
    ensures
        r.deep_view() == split_ws_spec(s@),
{
    let n = s.unicode_len();
    let mut r: Vec<String> = Vec::new();
    let mut i: usize = 0;
    while i < n
        invariant
            n == s@.len(),
            i <= n,
            r.deep_view() + split_from(s@, i as int) == split_from(s@, 0),
        decreases n - i,
    {
        if is_whitespace_char(s.get_char(i)) {
            i += 1;
        } else {
            let start = i;
            let mut j = i;
            while j < n && !is_whitespace_char(s.get_char(j))
                invariant
                    n == s@.len(),
                    start <= j <= n,
                    forall|k: int| start <= k < j ==> !is_ws(s@[k]),
                decreases n - j,
            {
                j += 1;
            }
            proof {
                lemma_token_end_at(s@, start as int, j as int);
            }
            let ghost old_tokens = r.deep_view();
            let tok = s.substring_char(start, j);
            r.push(String::from_str(tok));
            proof {
                assert(r.deep_view() =~= old_tokens.push(s@.subrange(start as int, j as int)));
                assert(r.deep_view() + split_from(s@, j as int) =~= old_tokens + split_from(
                    s@,
                    start as int,
                ));
            }
            i = j;
        }
    }
    proof {
        assert(r.deep_view() + split_from(s@, n as int) =~= r.deep_view());
    }
    r
}

/// The tokens of `ts` joined with single spaces, the inverse direction of
/// the splitting rule for well-formed token lists.
pub open spec fn join_ws(ts: Seq<Seq<char>>) -> Seq<char>
    decreases ts.len(),
{
    if ts.len() == 0 {
        Seq::empty()
    } else if ts.len() == 1 {
        ts[0]
    } else {
        join_ws(ts.drop_last()) + seq![' '] + ts.last()
    }
}

/// Join `ts` with single spaces.
pub fn join_with_spaces(ts: &Vec<String>) -> (r: String)
    ensures
        r@ == join_ws(ts.deep_view()),
{
    let mut r = String::new();
    let mut i: usize = 0;
    proof {
        reveal_strlit(" ");
        assert(" "@ =~= seq![' ']);
    }
    while i < ts.len()
        invariant
            i <= ts@.len(),
            ts.deep_view().len() == ts@.len(),
            r@ == join_ws(ts.deep_view().take(i as int)),
            " "@ =~= seq![' '],
        decreases ts@.len() - i,
    {
        let ghost prefix = ts.deep_view().take(i as int);
        if i > 0 {
            r.append(" ");
        }
        r.append(ts[i].as_str());
        proof {
            let next = ts.deep_view().take(i + 1 as int);
            assert(next.drop_last() =~= prefix);
            assert(next.last() == ts.deep_view()[i as int]);
            if i == 0 {
                assert(r@ =~= join_ws(next));
            } else {
                assert(r@ =~= join_ws(prefix) + seq![' '] + ts.deep_view()[i as int]);
            }
        }
        i += 1;
    }
    proof {
        assert(ts.deep_view().take(ts@.len() as int) =~= ts.deep_view());
    }
    r
}

/// `pat` occurs in `s` starting at index `i`.
pub open spec fn contains_at(s: Seq<char>, pat: Seq<char>, i: int) -> bool {
    0 <= i && i + pat.len() <= s.len() && s.subrange(i, i + pat.len()) == pat
}

/// `pat` occurs somewhere in `s`.
pub open spec fn spec_contains(s: Seq<char>, pat: Seq<char>) -> bool {
    exists|i: int| contains_at(s, pat, i)
}

/// Does `pat` occur in `s` starting exactly at `i`?
fn matches_at(s: &str, pat: &str, i: usize) -> (r: bool)
    requires
        i + pat@.len() <= s@.len(),
        s@.len() <= usize::MAX,
    ensures
        r == contains_at(s@, pat@, i as int),
{
    let m = pat.unicode_len();
    let mut j: usize = 0;
    while j < m
        invariant
            m == pat@.len(),
            i + m <= s@.len(),
            s@.len() <= usize::MAX,
            j <= m,
            forall|k: int| 0 <= k < j ==> s@[i + k] == pat@[k],
        decreases m - j,
    {
        if s.get_char(i + j) != pat.get_char(j) {
            proof {
                assert(s@.subrange(i as int, i + m) != pat@) by {
                    assert(s@.subrange(i as int, i + m)[j as int] == s@[i + j]);
                }
            }
            return false;
        }
        j += 1;
    }
    proof {
        assert(s@.subrange(i as int, i + m) =~= pat@);
    }
    true
}

/// Substring search, the check behind the debugger-style selection.
pub fn contains_str(s: &str, pat: &str) -> (r: bool)
    ensures
        r == spec_contains(s@, pat@),
{
    let n = s.unicode_len();
    let m = pat.unicode_len();
    if m > n {
        proof {
            assert(forall|i: int| !contains_at(s@, pat@, i));
        }
        return false;
    }
    if m == 0 {
        proof {
            assert(s@.subrange(0, 0) =~= pat@);
            assert(contains_at(s@, pat@, 0));
        }
        return true;
    }
    let mut i: usize = 0;
    while i <= n - m
        invariant
            n == s@.len(),
            m == pat@.len(),
            0 < m <= n,
            i <= n - m + 1,
            forall|k: int| 0 <= k < i ==> !contains_at(s@, pat@, k),
        decreases n - i,
    {
        if matches_at(s, pat, i) {
            return true;
        }
        i += 1;
    }
    proof {
        assert(forall|k: int| k > n - m ==> !contains_at(s@, pat@, k));
    }
    false
}

/// The first index at or after `i` where `pat` occurs in `s`, if any.
pub open spec fn find_from_spec(s: Seq<char>, pat: Seq<char>, i: int) -> Option<int>
    decreases s.len() - i,
{
    if i < 0 || i + pat.len() > s.len() {
        None
    } else if contains_at(s, pat, i) {
        Some(i)
    } else {
        proof {
            if pat.len() == 0 {
                assert(s.subrange(i, i + pat.len() as int) =~= pat);
            }
        }
        find_from_spec(s, pat, i + 1)
    }
}

/// A found position is a real occurrence at or after the start.
pub proof fn lemma_find_from_found(s: Seq<char>, pat: Seq<char>, start: int)
    requires
        find_from_spec(s, pat, start) is Some,
    ensures
        find_from_spec(s, pat, start)->0 >= start,
        contains_at(s, pat, find_from_spec(s, pat, start)->0),
    decreases s.len() - start,
{
    if !(start < 0 || start + pat.len() > s.len()) && !contains_at(s, pat, start) {
        if pat.len() == 0 {
            assert(s.subrange(start, start + pat.len() as int) =~= pat);
        }
        lemma_find_from_found(s, pat, start + 1);
    }
}

/// Substring search returning the first match position at or after `start`.
pub fn find_str_from(s: &str, pat: &str, start: usize) -> (r: Option<usize>)
    requires
        start <= s@.len(),
    ensures
        match r {
            Some(i) => find_from_spec(s@, pat@, start as int) == Some(i as int),
            None => find_from_spec(s@, pat@, start as int) is None,
        },
{
    let n = s.unicode_len();
    let m = pat.unicode_len();
    if m == 0 {
        proof {
            assert(s@.subrange(start as int, start as int) =~= pat@);
        }
        return Some(start);
    }
    if m > n || start > n - m {
        return None;
    }
    let mut i: usize = start;
    while i <= n - m
        invariant
            n == s@.len(),
            m == pat@.len(),
            0 < m <= n,
            start <= i <= n - m + 1,
            find_from_spec(s@, pat@, start as int) == find_from_spec(s@, pat@, i as int),
        decreases n - i,
    {
        if matches_at(s, pat, i) {
            return Some(i);
        }
        i += 1;
    }
    proof {
        assert(find_from_spec(s@, pat@, i as int) is None);
    }
    None
}

/// The first index at or after `i` holding the character `c`, or the length
/// of `s` when it occurs no more.
pub open spec fn until_char_spec(s: Seq<char>, i: int, c: char) -> int
    decreases s.len() - i,
{
    if i >= s.len() {
        i
    } else if s[i] == c {
        i
    } else {
        until_char_spec(s, i + 1, c)
    }
}

/// `until_char_spec` is the unique position bounding a `c`-free run that is
/// maximal to the right.
proof fn lemma_until_char_at(s: Seq<char>, i: int, j: int, c: char)
    requires
        0 <= i <= j <= s.len(),
        forall|k: int| i <= k < j ==> s[k] != c,
        j == s.len() || s[j] == c,
    ensures
        until_char_spec(s, i, c) == j,
    decreases j - i,
{
    if i < j {
        lemma_until_char_at(s, i + 1, j, c);
    }
}

/// Scan for the next occurrence of one character, from `start` on.
pub fn find_char_from(s: &str, start: usize, c: char) -> (r: usize)
    requires
        start <= s@.len(),
    ensures
        r == until_char_spec(s@, start as int, c),
        start <= r <= s@.len(),
{
    let n = s.unicode_len();
    let mut j = start;
    while j < n && s.get_char(j) != c
        invariant
            n == s@.len(),
            start <= j <= n,
            forall|k: int| start <= k < j ==> s@[k] != c,
        decreases n - j,
    {
        j += 1;
    }
    proof {
        lemma_until_char_at(s@, start as int, j as int, c);
    }
    j
}

/// The two strings, concatenated.
pub fn concat2(a: &str, b: &str) -> (r: String)
    ensures
        r@ == a@ + b@,
{
    let mut r = String::from_str(a);
    r.append(b);
    r
}

/// The three strings, concatenated.
pub fn concat3(a: &str, b: &str, c: &str) -> (r: String)
    ensures
        r@ == a@ + b@ + c@,
{
    let mut r = String::from_str(a);
    r.append(b);
    r.append(c);
    r
}

/// `a` and `b` joined by the path separator.
pub fn path_join(a: &str, b: &str) -> (r: String)
    ensures
        r@ == a@ + "/"@ + b@,
{
    concat3(a, "/", b)
}

/// The suffix of `s` after its last path separator, the whole of `s` when it
/// has none.  A trailing separator yields an empty name.
pub open spec fn file_name_spec(s: Seq<char>) -> Seq<char>
    decreases s.len(),
{
    if s.len() == 0 {
        s
    } else if s.last() == '/' {
        Seq::empty()
    } else {
        file_name_spec(s.drop_last()).push(s.last())
    }
}

/// `file_name_spec` is the suffix that follows the last separator.
proof fn lemma_file_name_suffix(s: Seq<char>, p: int)
    requires
        0 <= p <= s.len(),
        p == 0 || s[p - 1] == '/',
        forall|k: int| p <= k < s.len() ==> s[k] != '/',
    ensures
        file_name_spec(s) == s.subrange(p, s.len() as int),
    decreases s.len(),
{
    if p == s.len() {
        if s.len() == 0 {
            assert(file_name_spec(s) =~= s.subrange(p, s.len() as int));
        } else {
            assert(s.last() == '/');
            assert(file_name_spec(s) =~= s.subrange(p, s.len() as int));
        }
    } else {
        assert(s.last() != '/');
        let t = s.drop_last();
        assert(forall|k: int| p <= k < t.len() ==> t[k] == s[k] && s[k] != '/');
        lemma_file_name_suffix(t, p);
        assert(file_name_spec(s) =~= s.subrange(p, s.len() as int));
    }
}

/// The file-name part of a path: everything after the last separator.
pub fn file_name_of(s: &str) -> (r: String)
    ensures
        r@ == file_name_spec(s@),
{
    let n = s.unicode_len();
    let mut start: usize = 0;
    let mut i: usize = 0;
    while i < n
        invariant
            n == s@.len(),
            i <= n,
            start <= i,
            start == 0 || s@[start - 1] == '/',
            forall|k: int| start <= k < i ==> s@[k] != '/',
        decreases n - i,
    {
        if s.get_char(i) == '/' {
            start = i + 1;
        }
        i += 1;
    }
    proof {
        lemma_file_name_suffix(s@, start as int);
    }
    let name = s.substring_char(start, n);
    String::from_str(name)
}

/// The value of an optional override, or the given default.
pub open spec fn opt_or(o: Option<Seq<char>>, default: Seq<char>) -> Seq<char> {
    match o {
        Some(v) => v,
        None => default,
    }
}

/// The value of an optional override, or the empty string.
pub open spec fn opt_or_empty(o: Option<Seq<char>>) -> Seq<char> {
    match o {
        Some(v) => v,
        None => Seq::empty(),
    }
}

/// The override's value as a slice, or the empty string.
pub fn opt_str_empty(o: &Option<String>) -> (r: &str)
    ensures
        r@ == opt_or_empty(o.deep_view()),
{
    match o {
        Some(s) => s.as_str(),
        None => {
            proof {
                reveal_strlit("");
                assert(""@ =~= Seq::<char>::empty());
            }
            ""
        },
    }
}

/// Copy every string of `src` onto the end of `dst`.
pub fn extend_strings(dst: &mut Vec<String>, src: &Vec<String>)
    ensures
        final(dst).deep_view() == old(dst).deep_view() + src.deep_view(),
{
    let mut i: usize = 0;
    while i < src.len()
        invariant
            i <= src@.len(),
            src.deep_view().len() == src@.len(),
            dst.deep_view() == old(dst).deep_view() + src.deep_view().take(i as int),
        decreases src@.len() - i,
    {
        let ghost before = dst.deep_view();
        dst.push(src[i].clone());
        proof {
            assert(dst.deep_view() =~= before.push(src.deep_view()[i as int]));
            assert(dst.deep_view() =~= old(dst).deep_view() + src.deep_view().take(i + 1 as int));
        }
        i += 1;
    }
    proof {
        assert(src.deep_view().take(src@.len() as int) =~= src.deep_view());
        assert(dst.deep_view() =~= old(dst).deep_view() + src.deep_view());
    }
}

/// Push a copy of one string onto `v`.
pub fn push_string(v: &mut Vec<String>, s: &String)
    ensures
        final(v).deep_view() == old(v).deep_view().push(s@),
{
    v.push(s.clone());
    proof {
        assert(v.deep_view() =~= old(v).deep_view().push(s@));
    }
}

/// Push one token, given as a string slice, onto `v`.
pub fn push_tok(v: &mut Vec<String>, s: &str)
    ensures
        final(v).deep_view() == old(v).deep_view().push(s@),
{
    v.push(String::from_str(s));
    proof {
        assert(v.deep_view() =~= old(v).deep_view().push(s@));
    }
}

} // verus!
