//! Character and string helpers shared by the classifier: ASCII case
//! folding, whitespace trimming, and case-insensitive substring search.

use vstd::prelude::*;
use vstd::string::StrSliceExecFns;

verus! {

/// The Unicode scalar value of `c` with an ASCII capital letter folded to
/// its lower-case form; every other character is left as it is.
pub open spec fn lower_u(c: char) -> u32 {
    if 65 <= c as u32 && c as u32 <= 90 {
        (c as u32 + 32) as u32
    } else {
        c as u32
    }
}

/// Case-insensitive equality of two character sequences under ASCII folding.
pub open spec fn eq_ci(a: Seq<char>, b: Seq<char>) -> bool {
    a.len() == b.len() && forall|i: int| 0 <= i < a.len() ==> lower_u(a[i]) == lower_u(b[i])
}

pub fn char_lower_u(c: char) -> (r: u32)
    ensures
        r == lower_u(c),
{
    let u = c as u32;
    if 65 <= u && u <= 90 {
        u + 32
    } else {
        u
    }
}

/// Exact equality of two string slices, decided character by character.
pub fn str_eq(a: &str, b: &str) -> (r: bool)
    ensures
        r == (a@ == b@),
{
    let alen = a.unicode_len();
    let blen = b.unicode_len();
    if alen != blen {
        return false;
    }
    let mut i: usize = 0;
    while i < alen
        invariant
            i <= alen,
            alen == a@.len(),
            alen == b@.len(),
            forall|j: int| 0 <= j < i ==> a@[j] == b@[j],
        decreases alen - i,
    {
        if a.get_char(i) != b.get_char(i) {
            return false;
        }
        i += 1;
    }
    proof {
        assert(a@ =~= b@);
    }
    true
}

/// Equality of two string slices under ASCII case folding.
pub fn str_eq_ci(a: &str, b: &str) -> (r: bool)
    ensures
        r == eq_ci(a@, b@),
{
    let alen = a.unicode_len();
    let blen = b.unicode_len();
    if alen != blen {
        return false;
    }
    let mut i: usize = 0;
    while i < alen
        invariant
            i <= alen,
            alen == a@.len(),
            alen == b@.len(),
            forall|j: int| 0 <= j < i ==> lower_u(a@[j]) == lower_u(b@[j]),
        decreases alen - i,
    {
        if char_lower_u(a.get_char(i)) != char_lower_u(b.get_char(i)) {
            return false;
        }
        i += 1;
    }
    true
}

/// The whitespace characters recognized when trimming message text.
pub open spec fn is_space(c: char) -> bool {
    c == ' ' || c == '\t' || c == '\n' || c == '\r'
}

pub fn is_space_char(c: char) -> (r: bool)
    ensures
        r == is_space(c),
{
    c == ' ' || c == '\t' || c == '\n' || c == '\r'
}

/// `s` with its leading whitespace removed.
pub open spec fn trim_start(s: Seq<char>) -> Seq<char>
    decreases s.len(),
{
    if s.len() > 0 && is_space(s[0]) {
        trim_start(s.subrange(1, s.len() as int))
    } else {
        s
    }
}

/// `s` with its trailing whitespace removed.
pub open spec fn trim_end(s: Seq<char>) -> Seq<char>
    decreases s.len(),
{
    if s.len() > 0 && is_space(s[s.len() - 1]) {
        trim_end(s.subrange(0, s.len() - 1))
    } else {
        s
    }
}

/// `s` with whitespace removed from both ends.
pub open spec fn spec_trim(s: Seq<char>) -> Seq<char> {
    trim_end(trim_start(s))
}

proof fn lemma_trim_start_at(s: Seq<char>, lo: int)
    requires
        0 <= lo <= s.len(),
        forall|k: int| 0 <= k < lo ==> is_space(s[k]),
        lo < s.len() ==> !is_space(s[lo]),
    ensures
        trim_start(s) == s.subrange(lo, s.len() as int),
    decreases lo,
{
    if lo == 0 {
        assert(s.subrange(0, s.len() as int) =~= s);
    } else {
        let s1 = s.subrange(1, s.len() as int);
        lemma_trim_start_at(s1, lo - 1);
        assert(s1.subrange(lo - 1, s1.len() as int) =~= s.subrange(lo, s.len() as int));
    }
}

proof fn lemma_trim_end_at(s: Seq<char>, hi: int)
    requires
        0 <= hi <= s.len(),
        forall|k: int| hi <= k < s.len() ==> is_space(s[k]),
        hi > 0 ==> !is_space(s[hi - 1]),
    ensures
        trim_end(s) == s.subrange(0, hi),
    decreases s.len() - hi,
{
    if hi == s.len() {
        if s.len() > 0 && is_space(s[s.len() - 1]) {
            assert(false);
        }
        assert(s.subrange(0, s.len() as int) =~= s);
    } else {
        let s1 = s.subrange(0, s.len() - 1);
        lemma_trim_end_at(s1, hi);
        assert(s1.subrange(0, hi) =~= s.subrange(0, hi));
    }
}

/// Returns the slice of `s` with whitespace removed from both ends.
pub fn trim_str<'a>(s: &'a str) -> (r: &'a str)
    ensures
        r@ == spec_trim(s@),
{
    let n = s.unicode_len();
    let mut lo: usize = 0;
    while lo < n && is_space_char(s.get_char(lo))
        invariant
            n == s@.len(),
            lo <= n,
            forall|k: int| 0 <= k < lo ==> is_space(s@[k]),
        decreases n - lo,
    {
        lo += 1;
    }
    let mut hi: usize = n;
    while hi > lo && is_space_char(s.get_char(hi - 1))
        invariant
            n == s@.len(),
            lo <= hi <= n,
            forall|k: int| 0 <= k < lo ==> is_space(s@[k]),
            lo < n ==> !is_space(s@[lo as int]),
            forall|k: int| hi <= k < n ==> is_space(s@[k]),
        decreases hi,
    {
        hi -= 1;
    }
    proof {
        lemma_trim_start_at(s@, lo as int);
        let t = s@.subrange(lo as int, n as int);
        lemma_trim_end_at(t, hi - lo);
        assert(t.subrange(0, hi - lo) =~= s@.subrange(lo as int, hi as int));
    }
    s.substring_char(lo, hi)
}

/// Whether `a` counts as an occurrence of `b`: exactly equal, or equal under
/// ASCII case folding when `ci` is set.
pub open spec fn char_matches(a: char, b: char, ci: bool) -> bool {
    if ci {
        lower_u(a) == lower_u(b)
    } else {
        a == b
    }
}

/// Whether `pat` occurs in `t` starting at position `i`.
pub open spec fn match_at(t: Seq<char>, pat: Seq<char>, i: int, ci: bool) -> bool {
    &&& 0 <= i
    &&& i + pat.len() <= t.len()
    &&& forall|k: int| 0 <= k < pat.len() ==> char_matches(t[i + k], pat[k], ci)
}

/// The first position at or after `i` where `pat` occurs in `t`.
pub open spec fn find_from(t: Seq<char>, pat: Seq<char>, i: int, ci: bool) -> Option<int>
    decreases t.len() - i
        when 0 <= i <= t.len()
{
    if i + pat.len() > t.len() {
        None
    } else if match_at(t, pat, i, ci) {
        Some(i)
    } else {
        find_from(t, pat, i + 1, ci)
    }
}

/// Whether `pat` occurs anywhere in `t`.
pub open spec fn contains_sub(t: Seq<char>, pat: Seq<char>, ci: bool) -> bool {
    find_from(t, pat, 0, ci) is Some
}

proof fn lemma_find_from_some(t: Seq<char>, pat: Seq<char>, i: int, ci: bool)
    requires
        0 <= i <= t.len(),
        match_at(t, pat, i, ci),
    ensures
        find_from(t, pat, i, ci) == Some(i),
{
}

/// A successful find names a real occurrence: the position is in range and
/// the pattern matches there.
pub proof fn lemma_find_from_props(t: Seq<char>, pat: Seq<char>, i: int, ci: bool)
    requires
        0 <= i <= t.len(),
        find_from(t, pat, i, ci) is Some,
    ensures
        find_from(t, pat, i, ci) matches Some(p) ==> i <= p && match_at(t, pat, p, ci),
    decreases t.len() - i,
{
    if i + pat.len() > t.len() {
    } else if match_at(t, pat, i, ci) {
    } else {
        lemma_find_from_props(t, pat, i + 1, ci);
    }
}

/// Whether `pat` occurs in `t` at position `i`, checked character by
/// character.
pub fn match_here(t: &str, pat: &str, i: usize, ci: bool) -> (r: bool)
    requires
        i + pat@.len() <= t@.len(),
        t@.len() <= usize::MAX,
    ensures
        r == match_at(t@, pat@, i as int, ci),
{
    let m = pat.unicode_len();
    let mut k: usize = 0;
    while k < m
        invariant
            m == pat@.len(),
            i + m <= t@.len(),
            t@.len() <= usize::MAX,
            k <= m,
            forall|j: int| 0 <= j < k ==> char_matches(t@[i + j], pat@[j], ci),
        decreases m - k,
    {
        let a = t.get_char(i + k);
        let b = pat.get_char(k);
        let ok = if ci {
            char_lower_u(a) == char_lower_u(b)
        } else {
            a == b
        };
        if !ok {
            return false;
        }
        k += 1;
    }
    true
}

/// The first position of `pat` in `t`, exactly or case-insensitively.
pub fn find_sub(t: &str, pat: &str, ci: bool) -> (r: Option<usize>)
    ensures
        r matches Some(i) ==> find_from(t@, pat@, 0, ci) == Some(i as int),
        r is None ==> find_from(t@, pat@, 0, ci) is None,
{
    let n = t.unicode_len();
    let m = pat.unicode_len();
    if m > n {
        return None;
    }
    let mut i: usize = 0;
    while i <= n - m
        invariant
            n == t@.len(),
            m == pat@.len(),
            m <= n,
            i <= n - m + 1,
            m > 0 || i == 0,
            find_from(t@, pat@, 0, ci) == find_from(t@, pat@, i as int, ci),
        decreases n - i,
    {
        if match_here(t, pat, i, ci) {
            proof {
                lemma_find_from_some(t@, pat@, i as int, ci);
            }
            return Some(i);
        }
        i += 1;
    }
    proof {
        assert(find_from(t@, pat@, i as int, ci) is None);
    }
    None
}

} // verus!
