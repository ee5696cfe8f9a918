//! Small verified string utilities: comparison, substring search, trimming,
//! path-segment extraction and decimal rendering, all specified over
//! sequences of characters.

use vstd::prelude::*;

verus! {

/// Character-for-character equality of two string slices.
pub fn eq_str(a: &str, b: &str) -> (r: bool)
    ensures
        r == (a@ == b@),
{
    let alen = a.unicode_len();
    let blen = b.unicode_len();
    if alen != blen {
        return false;
    }
    let mut i: usize = 0;
    while i < alen
        invariant
            i <= alen,
            alen == a@.len(),
            alen == b@.len(),
            forall|j: int| 0 <= j < i ==> a@[j] == b@[j],
        decreases alen - i,
    {
        if a.get_char(i) != b.get_char(i) {
            return false;
        }
        i += 1;
    }
    proof {
        assert(a@ =~= b@);
    }
    true
}

/// `p` is a prefix of `s`.
pub open spec fn seq_starts_with(s: Seq<char>, p: Seq<char>) -> bool {
    p.len() <= s.len() && s.subrange(0, p.len() as int) == p
}

/// Whether `s` starts with the prefix `p`.
pub fn starts_with_str(s: &str, p: &str) -> (r: bool)
    ensures
        r == seq_starts_with(s@, p@),
{
    let slen = s.unicode_len();
    let plen = p.unicode_len();
    if plen > slen {
        assert(!seq_starts_with(s@, p@));
        return false;
    }
    let mut i: usize = 0;
    while i < plen
        invariant
            i <= plen,
            plen == p@.len(),
            slen == s@.len(),
            plen <= slen,
            forall|j: int| 0 <= j < i ==> s@[j] == p@[j],
        decreases plen - i,
    {
        if s.get_char(i) != p.get_char(i) {
            proof {
                assert(s@.subrange(0, p@.len() as int)[i as int] == s@[i as int]);
            }
            return false;
        }
        i += 1;
    }
    proof {
        assert(s@.subrange(0, p@.len() as int) =~= p@);
    }
    true
}

/// The needle `n` occurs in the haystack `h` at position `i`.
pub open spec fn occurs_at(h: Seq<char>, n: Seq<char>, i: int) -> bool {
    0 <= i && i + n.len() <= h.len() && h.subrange(i, i + n.len() as int) == n
}

/// The needle `n` occurs somewhere in the haystack `h`.
pub open spec fn contains_sub(h: Seq<char>, n: Seq<char>) -> bool {
    exists|i: int| occurs_at(h, n, i)
}

/// Whether the needle `n` occurs at position `i` of `h`.
fn match_at(h: &str, n: &str, i: usize) -> (r: bool)
    requires
        i + n@.len() <= h@.len(),
    ensures
        r == occurs_at(h@, n@, i as int),
{
    let hlen = h.unicode_len();
    let nlen = n.unicode_len();
    let mut j: usize = 0;
    while j < nlen
        invariant
            j <= nlen,
            nlen == n@.len(),
            hlen == h@.len(),
            i + nlen <= hlen,
            forall|t: int| 0 <= t < j ==> h@[i + t] == n@[t],
        decreases nlen - j,
    {
        if h.get_char(i + j) != n.get_char(j) {
            proof {
                assert(h@.subrange(i as int, i + n@.len() as int)[j as int] == h@[i + j]);
            }
            return false;
        }
        j += 1;
    }
    proof {
        assert(h@.subrange(i as int, i + n@.len() as int) =~= n@);
    }
    true
}

/// Substring search: whether `n` occurs anywhere in `h`.
pub fn contains_str(h: &str, n: &str) -> (r: bool)
    ensures
        r == contains_sub(h@, n@),
{
    let hlen = h.unicode_len();
    let nlen = n.unicode_len();
    if nlen > hlen {
        assert(!contains_sub(h@, n@));
        return false;
    }
    if nlen == 0 {
        proof {
            assert(h@.subrange(0, 0) =~= n@);
            assert(occurs_at(h@, n@, 0));
        }
        return true;
    }
    let mut i: usize = 0;
    while i <= hlen - nlen
        invariant
            1 <= nlen <= hlen,
            hlen == h@.len(),
            nlen == n@.len(),
            i <= hlen - nlen + 1,
            forall|k: int| 0 <= k < i ==> !occurs_at(h@, n@, k),
        decreases hlen - nlen + 1 - i,
    {
        if match_at(h, n, i) {
            return true;
        }
        i += 1;
    }
    proof {
        assert(forall|k: int| occurs_at(h@, n@, k) ==> 0 <= k <= hlen - nlen);
    }
    false
}

/// Whether a character counts as whitespace for trimming: the Unicode
/// white-space property, a function of the character alone.
pub uninterp spec fn is_unicode_ws(c: char) -> bool;

/// Relies on char::is_whitespace: the Unicode white-space property of
/// the character, depending on nothing else.
#[verifier::external_body]
fn char_is_ws(c: char) -> (r: bool)
    ensures
        r == is_unicode_ws(c),
{
    c.is_whitespace()
}

/// Index of the first character that is not whitespace (the length when
/// every character is whitespace).
pub open spec fn first_non_ws(s: Seq<char>) -> int
    decreases s.len(),
{
    if s.len() == 0 {
        0
    } else if !is_unicode_ws(s[0]) {
        0
    } else {
        1 + first_non_ws(s.drop_first())
    }
}

/// One past the index of the last character that is not whitespace (zero
/// when every character is whitespace).
pub open spec fn last_non_ws_end(s: Seq<char>) -> int
    decreases s.len(),
{
    if s.len() == 0 {
        0
    } else if !is_unicode_ws(s.last()) {
        s.len() as int
    } else {
        last_non_ws_end(s.drop_last())
    }
}

/// `s` with leading and trailing whitespace removed.
pub open spec fn trim_view(s: Seq<char>) -> Seq<char> {
    let a = first_non_ws(s);
    let b = last_non_ws_end(s);
    if a < b {
        s.subrange(a, b)
    } else {
        Seq::empty()
    }
}

proof fn lemma_first_non_ws(s: Seq<char>)
    ensures
        0 <= first_non_ws(s) <= s.len(),
        forall|k: int| 0 <= k < first_non_ws(s) ==> is_unicode_ws(s[k]),
        first_non_ws(s) < s.len() ==> !is_unicode_ws(s[first_non_ws(s)]),
    decreases s.len(),
{
    if s.len() > 0 && is_unicode_ws(s[0]) {
        lemma_first_non_ws(s.drop_first());
        assert forall|k: int| 0 <= k < first_non_ws(s) implies is_unicode_ws(s[k]) by {
            if k > 0 {
                assert(s.drop_first()[k - 1] == s[k]);
            }
        }
    }
}

proof fn lemma_last_non_ws_end(s: Seq<char>)
    ensures
        0 <= last_non_ws_end(s) <= s.len(),
        forall|k: int| last_non_ws_end(s) <= k < s.len() ==> is_unicode_ws(s[k]),
        last_non_ws_end(s) > 0 ==> !is_unicode_ws(s[last_non_ws_end(s) - 1]),
    decreases s.len(),
{
    if s.len() > 0 && is_unicode_ws(s.last()) {
        lemma_last_non_ws_end(s.drop_last());
        assert forall|k: int| last_non_ws_end(s) <= k < s.len() implies is_unicode_ws(s[k]) by {
            if k < s.len() - 1 {
                assert(s.drop_last()[k] == s[k]);
            }
        }
    }
}

/// `s` with leading and trailing whitespace removed.
pub fn trim_ws<'a>(s: &'a str) -> (r: &'a str)
    ensures
        r@ == trim_view(s@),
{
    let len = s.unicode_len();
    let mut a: usize = 0;
    while a < len && char_is_ws(s.get_char(a))
        invariant
            a <= len,
            len == s@.len(),
            forall|k: int| 0 <= k < a ==> is_unicode_ws(s@[k]),
        decreases len - a,
    {
        a += 1;
    }
    proof {
        lemma_first_non_ws(s@);
        assert(a == first_non_ws(s@)) by {
            if a < first_non_ws(s@) {
                assert(is_unicode_ws(s@[a as int]));
            }
        }
    }
    let mut b: usize = len;
    while b > a && char_is_ws(s.get_char(b - 1))
        invariant
            a <= b <= len,
            len == s@.len(),
            a == first_non_ws(s@),
            forall|k: int| b <= k < len ==> is_unicode_ws(s@[k]),
        decreases b,
    {
        b -= 1;
    }
    proof {
        lemma_last_non_ws_end(s@);
        if a < b {
            assert(b == last_non_ws_end(s@)) by {
                if b < last_non_ws_end(s@) {
                    assert(is_unicode_ws(s@[last_non_ws_end(s@) - 1]));
                }
                if b > last_non_ws_end(s@) {
                    assert(is_unicode_ws(s@[b - 1]));
                }
            }
        } else {
            assert(first_non_ws(s@) >= last_non_ws_end(s@)) by {
                if first_non_ws(s@) < last_non_ws_end(s@) {
                    assert(is_unicode_ws(s@[first_non_ws(s@)]));
                }
            }
        }
    }
    let r = s.substring_char(a, b);
    proof {
        if a >= b {
            assert(r@ =~= trim_view(s@));
        }
    }
    r
}

/// Drop every trailing `/` from a path.
pub open spec fn strip_trailing_slashes(s: Seq<char>) -> Seq<char>
    decreases s.len(),
{
    if s.len() > 0 && s.last() == '/' {
        strip_trailing_slashes(s.drop_last())
    } else {
        s
    }
}

/// The suffix of `s` after its last `/` (all of `s` when it has none).
pub open spec fn after_last_slash(s: Seq<char>) -> Seq<char>
    decreases s.len(),
{
    if s.len() == 0 {
        s
    } else if s.last() == '/' {
        Seq::empty()
    } else {
        after_last_slash(s.drop_last()).push(s.last())
    }
}

/// `s` without its trailing slashes.
pub fn strip_trailing_slashes_str<'a>(s: &'a str) -> (r: &'a str)
    ensures
        r@ == strip_trailing_slashes(s@),
{
    let len = s.unicode_len();
    let mut b: usize = len;
    while b > 0 && s.get_char(b - 1) == '/'
        invariant
            b <= len,
            len == s@.len(),
            forall|k: int| b <= k < len ==> s@[k] == '/',
        decreases b,
    {
        b -= 1;
    }
    proof {
        lemma_strip_trailing_slashes(s@);
        let st = strip_trailing_slashes(s@);
        assert(b == st.len()) by {
            if b < st.len() {
                assert(s@[st.len() - 1] == '/');
            }
            if b > st.len() {
                assert(s@[b - 1] == '/');
            }
        }
        assert(st =~= s@.subrange(0, b as int));
    }
    s.substring_char(0, b)
}

/// The path with trailing slashes and trailing `.` segments dropped: what
/// remains once the final components that name no entry of their own are
/// removed from the end.
pub open spec fn trimmed_path(s: Seq<char>) -> Seq<char>
    decreases s.len(),
    via trimmed_path_decreases
{
    let st = strip_trailing_slashes(s);
    if after_last_slash(st) == seq!['.'] {
        trimmed_path(st.drop_last())
    } else {
        st
    }
}

#[via_fn]
proof fn trimmed_path_decreases(s: Seq<char>) {
    lemma_strip_trailing_slashes(s);
    lemma_after_last_slash(strip_trailing_slashes(s));
}

/// The display name of a path: the final path segment, ignoring trailing
/// slashes and trailing `.` segments. A path that has no such segment, or
/// whose final segment is `..`, has no display name.
pub open spec fn last_segment_view(s: Seq<char>) -> Option<Seq<char>> {
    let seg = after_last_slash(trimmed_path(s));
    if seg.len() == 0 || seg == seq!['.', '.'] {
        None
    } else {
        Some(seg)
    }
}

proof fn lemma_strip_trailing_slashes(s: Seq<char>)
    ensures
        0 <= strip_trailing_slashes(s).len() <= s.len(),
        strip_trailing_slashes(s) == s.take(strip_trailing_slashes(s).len() as int),
        strip_trailing_slashes(s).len() > 0 ==> s[strip_trailing_slashes(s).len() - 1] != '/',
        forall|k: int| strip_trailing_slashes(s).len() <= k < s.len() ==> s[k] == '/',
    decreases s.len(),
{
    if s.len() > 0 && s.last() == '/' {
        lemma_strip_trailing_slashes(s.drop_last());
        assert(s.drop_last() =~= s.take(s.len() - 1));
        assert(s.drop_last().take(strip_trailing_slashes(s.drop_last()).len() as int) =~= s.take(
            strip_trailing_slashes(s.drop_last()).len() as int,
        ));
        assert forall|k: int| strip_trailing_slashes(s).len() <= k < s.len() implies s[k]
            == '/' by {
            if k < s.len() - 1 {
                assert(s.drop_last()[k] == s[k]);
            }
        }
    } else {
        assert(s =~= s.take(s.len() as int));
    }
}

proof fn lemma_after_last_slash(s: Seq<char>)
    ensures
        0 <= after_last_slash(s).len() <= s.len(),
        after_last_slash(s) == s.subrange(s.len() - after_last_slash(s).len(), s.len() as int),
        forall|k: int|
            s.len() - after_last_slash(s).len() <= k < s.len() ==> s[k] != '/',
        after_last_slash(s).len() < s.len() ==> s[s.len() - after_last_slash(s).len() - 1] == '/',
    decreases s.len(),
{
    if s.len() == 0 {
        assert(after_last_slash(s) =~= s.subrange(0, 0));
    } else if s.last() == '/' {
        assert(after_last_slash(s) =~= s.subrange(s.len() as int, s.len() as int));
    } else {
        lemma_after_last_slash(s.drop_last());
        let t = s.drop_last();
        let a = after_last_slash(t);
        assert(t =~= s.subrange(0, s.len() - 1));
        assert forall|k: int|
            s.len() - after_last_slash(s).len() <= k < s.len() implies s[k] != '/' by {
            if k < s.len() - 1 {
                assert(t[k] == s[k]);
            }
        }
        assert(a.push(s.last()) =~= s.subrange(s.len() - a.len() - 1, s.len() as int));
    }
}

/// Where `path@.take(e)` ends once its trailing slashes and trailing `.`
/// segments are dropped: the length of its trimmed form.
fn trimmed_end(path: &str, e: usize) -> (r: usize)
    requires
        e <= path@.len(),
    ensures
        r <= e,
        trimmed_path(path@.take(e as int)) == path@.take(r as int),
    decreases e,
{
    let ghost t = path@.take(e as int);
    let mut b: usize = e;
    while b > 0 && path.get_char(b - 1) == '/'
        invariant
            b <= e <= path@.len(),
            forall|k: int| b <= k < e ==> path@[k] == '/',
        decreases b,
    {
        b -= 1;
    }
    proof {
        lemma_strip_trailing_slashes(t);
        let st = strip_trailing_slashes(t);
        assert(forall|k: int| 0 <= k < e ==> t[k] == path@[k]);
        assert(b == st.len()) by {
            if b < st.len() {
                assert(t[st.len() - 1] == '/');
            }
            if b > st.len() {
                assert(t[b - 1] == '/');
            }
        }
        assert(st =~= path@.take(b as int));
    }
    let mut a: usize = b;
    while a > 0 && path.get_char(a - 1) != '/'
        invariant
            a <= b <= path@.len(),
            forall|k: int| a <= k < b ==> path@[k] != '/',
        decreases a,
    {
        a -= 1;
    }
    proof {
        let st = path@.take(b as int);
        lemma_after_last_slash(st);
        let sg = after_last_slash(st);
        assert(forall|k: int| 0 <= k < b ==> st[k] == path@[k]);
        assert(a == b - sg.len()) by {
            if a < b - sg.len() {
                assert(st[b - sg.len() - 1] == '/');
            }
            if a > b - sg.len() {
                assert(st[a - 1] != '/');
            }
        }
        assert(sg =~= path@.subrange(a as int, b as int));
    }
    if b - a == 1 && path.get_char(a) == '.' {
        proof {
            assert(path@.subrange(a as int, b as int) =~= seq!['.']);
            assert(path@.take(b as int).drop_last() =~= path@.take(b as int - 1));
        }
        let r = trimmed_end(path, b - 1);
        proof {
            assert(trimmed_path(t) == trimmed_path(path@.take(b as int - 1)));
        }
        r
    } else {
        proof {
            assert(after_last_slash(path@.take(b as int)) != seq!['.']) by {
                let sg = path@.subrange(a as int, b as int);
                if sg == seq!['.'] {
                    assert(sg.len() == 1);
                    assert(sg[0] == path@[a as int]);
                }
            }
            assert(trimmed_path(t) == path@.take(b as int));
        }
        b
    }
}

/// The final path segment of `path`, ignoring trailing slashes and
/// trailing `.` segments; `None` when there is none, or when it is `..`.
pub fn last_segment(path: &str) -> (r: Option<String>)
    ensures
        match r {
            Some(name) => last_segment_view(path@) == Some(name@),
            None => last_segment_view(path@) is None,
        },
{
    let len = path.unicode_len();
    proof {
        assert(path@.take(len as int) =~= path@);
    }
    let b = trimmed_end(path, len);
    let mut a: usize = b;
    while a > 0 && path.get_char(a - 1) != '/'
        invariant
            a <= b <= len,
            len == path@.len(),
            forall|k: int| a <= k < b ==> path@[k] != '/',
        decreases a,
    {
        a -= 1;
    }
    proof {
        let st = trimmed_path(path@);
        lemma_after_last_slash(st);
        let sg = after_last_slash(st);
        assert(forall|k: int| 0 <= k < b ==> st[k] == path@[k]);
        assert(a == b - sg.len()) by {
            if a < b - sg.len() {
                assert(st[b - sg.len() - 1] == '/');
            }
            if a > b - sg.len() {
                assert(st[a - 1] != '/');
                assert(path@[a - 1] != '/');
            }
        }
        assert(sg =~= path@.subrange(a as int, b as int));
    }
    let seg = path.substring_char(a, b);
    let seglen = b - a;
    if seglen == 0 {
        return None;
    }
    if seglen == 2 && seg.get_char(0) == '.' && seg.get_char(1) == '.' {
        proof {
            assert(seg@ =~= seq!['.', '.']);
        }
        return None;
    }
    proof {
        assert(seg@ != seq!['.', '.']) by {
            if seg@ == seq!['.', '.'] {
                assert(seg@[0] == '.' && seg@[1] == '.');
            }
        }
    }
    Some(seg.to_owned())
}

/// The decimal digit character for `d`.
pub open spec fn dec_digit(d: int) -> char {
    if d == 0 {
        '0'
    } else if d == 1 {
        '1'
    } else if d == 2 {
        '2'
    } else if d == 3 {
        '3'
    } else if d == 4 {
        '4'
    } else if d == 5 {
        '5'
    } else if d == 6 {
        '6'
    } else if d == 7 {
        '7'
    } else if d == 8 {
        '8'
    } else {
        '9'
    }
}

/// The decimal rendering of `n`, most significant digit first.
pub open spec fn dec_rep(n: nat) -> Seq<char>
    decreases n,
{
    if n < 10 {
        seq![dec_digit(n as int)]
    } else {
        dec_rep(n / 10).push(dec_digit((n % 10) as int))
    }
}

/// The one-character string for the decimal digit `d`.
pub(crate) fn dec_digit_str(d: u64) -> (r: &'static str)
    requires
        d < 10,
    ensures
        r@ =~= seq![dec_digit(d as int)],
{
    proof {
        reveal_strlit("0");
        reveal_strlit("1");
        reveal_strlit("2");
        reveal_strlit("3");
        reveal_strlit("4");
        reveal_strlit("5");
        reveal_strlit("6");
        reveal_strlit("7");
        reveal_strlit("8");
        reveal_strlit("9");
    }
    if d == 0 {
        "0"
    } else if d == 1 {
        "1"
    } else if d == 2 {
        "2"
    } else if d == 3 {
        "3"
    } else if d == 4 {
        "4"
    } else if d == 5 {
        "5"
    } else if d == 6 {
        "6"
    } else if d == 7 {
        "7"
    } else if d == 8 {
        "8"
    } else {
        "9"
    }
}

/// Render `n` in decimal.
pub fn u64_to_string(n: u64) -> (r: String)
    ensures
        r@ == dec_rep(n as nat),
    decreases n,
{
    if n < 10 {
        let mut s = String::new();
        s.append(dec_digit_str(n));
        proof {
            assert(s@ =~= dec_rep(n as nat));
        }
        s
    } else {
        let mut s = u64_to_string(n / 10);
        s.append(dec_digit_str(n % 10));
        proof {
            assert(s@ =~= dec_rep(n as nat));
        }
        s
    }
}

/// Render `n` in decimal.
pub fn usize_to_string(n: usize) -> (r: String)
    ensures
        r@ == dec_rep(n as nat),
{
    u64_to_string(n as u64)
}

} // verus!
