//! Character-level helpers on header names and values.
use vstd::prelude::*;

verus! {

/// The code of `c` with ASCII upper-case letters mapped to lower case.
pub open spec fn folded(c: char) -> u32 {
    let n = c as u32;
    if 65 <= n && n <= 90 {
        (n + 32) as u32
    } else {
        n
    }
}

/// `a` and `b` are equal up to ASCII case, as HTTP header names compare.
pub open spec fn same_name(a: Seq<char>, b: Seq<char>) -> bool {
    &&& a.len() == b.len()
    &&& forall|i: int| 0 <= i < a.len() ==> #[trigger] folded(a[i]) == folded(b[i])
}

/// `p` occurs in `s` starting at position `at`.
pub open spec fn occurs_at(s: Seq<char>, p: Seq<char>, at: int) -> bool {
    &&& 0 <= at
    &&& at + p.len() <= s.len()
    &&& s.subrange(at, at + p.len()) == p
}

pub open spec fn has_prefix(s: Seq<char>, p: Seq<char>) -> bool {
    occurs_at(s, p, 0)
}

pub open spec fn has_substring(s: Seq<char>, p: Seq<char>) -> bool {
    exists|at: int| occurs_at(s, p, at)
}

/// The part of `s` before its first comma (all of `s` when it has none).
pub open spec fn before_comma(s: Seq<char>) -> Seq<char>
    decreases s.len(),
{
    if s.len() == 0 {
        s
    } else if s[0] == ',' {
        Seq::empty()
    } else {
        seq![s[0]] + before_comma(s.drop_first())
    }
}

/// Space and horizontal tab: the only whitespace a readable header value can hold.
pub open spec fn is_blank(c: char) -> bool {
    c == ' ' || c == '\t'
}

pub open spec fn trim_start(s: Seq<char>) -> Seq<char>
    decreases s.len(),
{
    if s.len() > 0 && is_blank(s[0]) {
        trim_start(s.drop_first())
    } else {
        s
    }
}

pub open spec fn trim_end(s: Seq<char>) -> Seq<char>
    decreases s.len(),
{
    if s.len() > 0 && is_blank(s.last()) {
        trim_end(s.drop_last())
    } else {
        s
    }
}

pub open spec fn trim(s: Seq<char>) -> Seq<char> {
    trim_end(trim_start(s))
}

/// A character that may stand in a readable header value: tab or printable ASCII.
pub open spec fn is_visible(c: char) -> bool {
    c == '\t' || (32 <= c as u32 && c as u32 <= 126)
}

pub open spec fn all_visible(s: Seq<char>) -> bool {
    forall|i: int| 0 <= i < s.len() ==> #[trigger] is_visible(s[i])
}

pub open spec fn opt_view(o: Option<String>) -> Option<Seq<char>> {
    match o {
        Some(s) => Some(s@),
        None => None,
    }
}

fn fold_char(c: char) -> (r: u32)
    ensures
        r == folded(c),
{
    let n = c as u32;
    if 65 <= n && n <= 90 {
        n + 32
    } else {
        n
    }
}

/// Compares two header names, ignoring ASCII case.
pub fn names_equal(a: &str, b: &str) -> (r: bool)
    ensures
        r == same_name(a@, b@),
{
    let n = a.unicode_len();
    if n != b.unicode_len() {
        return false;
    }
    let mut i: usize = 0;
    while i < n
        invariant
            n == a@.len(),
            n == b@.len(),
            i <= n,
            forall|j: int| 0 <= j < i ==> #[trigger] folded(a@[j]) == folded(b@[j]),
        decreases n - i,
    {
        if fold_char(a.get_char(i)) != fold_char(b.get_char(i)) {
            return false;
        }
        i = i + 1;
    }
    true
}

/// Whether `p` occurs in `s` at position `at`.
pub fn occurs_at_pos(s: &str, p: &str, at: usize) -> (r: bool)
    ensures
        r == occurs_at(s@, p@, at as int),
{
    let n = s.unicode_len();
    let m = p.unicode_len();
    if at > n || m > n - at {
        return false;
    }
    let mut i: usize = 0;
    while i < m
        invariant
            n == s@.len(),
            m == p@.len(),
            at + m <= n,
            i <= m,
            forall|j: int| 0 <= j < i ==> s@[at + j] == p@[j],
        decreases m - i,
    {
        if s.get_char(at + i) != p.get_char(i) {
            assert(s@.subrange(at as int, at + m)[i as int] != p@[i as int]);
            return false;
        }
        i = i + 1;
    }
    assert(s@.subrange(at as int, at + m) =~= p@);
    true
}

pub fn starts_with(s: &str, p: &str) -> (r: bool)
    ensures
        r == has_prefix(s@, p@),
{
    occurs_at_pos(s, p, 0)
}

/// Whether `p` occurs anywhere in `s`.
pub fn contains(s: &str, p: &str) -> (r: bool)
    ensures
        r == has_substring(s@, p@),
{
    let n = s.unicode_len();
    let m = p.unicode_len();
    if m > n {
        assert forall|at: int| !occurs_at(s@, p@, at) by {}
        return false;
    }
    let last = n - m;
    let mut at: usize = 0;
    while at < last
        invariant
            n == s@.len(),
            m == p@.len(),
            last == n - m,
            at <= last,
            forall|k: int| 0 <= k < at ==> !occurs_at(s@, p@, k),
        decreases last - at,
    {
        if occurs_at_pos(s, p, at) {
            return true;
        }
        at = at + 1;
    }
    occurs_at_pos(s, p, last)
}

/// The first comma-separated field of `s`, with surrounding blanks removed.
pub fn first_field_trimmed(s: &str) -> (r: String)
    ensures
        r@ == trim(before_comma(s@)),
{
    let n = s.unicode_len();
    let mut k: usize = 0;
    assert(s@.skip(0) =~= s@);
    assert(s@.take(0) + before_comma(s@) =~= before_comma(s@));
    while k < n && s.get_char(k) != ','
        invariant
            n == s@.len(),
            k <= n,
            before_comma(s@) == s@.take(k as int) + before_comma(s@.skip(k as int)),
        decreases n - k,
    {
        let ghost rest = s@.skip(k as int);
        assert(rest.drop_first() =~= s@.skip(k + 1));
        assert(s@.take(k as int) + seq![s@[k as int]] =~= s@.take(k + 1));
        assert(s@.take(k as int) + (seq![s@[k as int]] + before_comma(s@.skip(k + 1)))
            =~= s@.take(k + 1) + before_comma(s@.skip(k + 1)));
        k = k + 1;
    }
    assert(before_comma(s@.skip(k as int)) =~= Seq::<char>::empty());
    assert(before_comma(s@) =~= s@.subrange(0, k as int));
    let mut a: usize = 0;
    while a < k && is_blank_char(s.get_char(a))
        invariant
            n == s@.len(),
            k <= n,
            a <= k,
            trim_start(s@.subrange(0, k as int)) == trim_start(s@.subrange(a as int, k as int)),
        decreases k - a,
    {
        assert(s@.subrange(a as int, k as int).drop_first() =~= s@.subrange(a + 1, k as int));
        a = a + 1;
    }
    let mut b: usize = k;
    while b > a && is_blank_char(s.get_char(b - 1))
        invariant
            n == s@.len(),
            a <= b <= k <= n,
            a == k || !is_blank(s@[a as int]),
            trim_start(s@.subrange(0, k as int)) == s@.subrange(a as int, k as int),
            trim(s@.subrange(0, k as int)) == trim_end(s@.subrange(a as int, b as int)),
        decreases b - a,
    {
        assert(s@.subrange(a as int, b as int).drop_last() =~= s@.subrange(a as int, b - 1));
        b = b - 1;
    }
    String::from_str(s.substring_char(a, b))
}

fn is_blank_char(c: char) -> (r: bool)
    ensures
        r == is_blank(c),
{
    c == ' ' || c == '\t'
}

/// Whether every character of `s` may stand in a readable header value.
pub fn is_visible_text(s: &str) -> (r: bool)
    ensures
        r == all_visible(s@),
{
    let n = s.unicode_len();
    let mut i: usize = 0;
    while i < n
        invariant
            n == s@.len(),
            i <= n,
            forall|j: int| 0 <= j < i ==> #[trigger] is_visible(s@[j]),
        decreases n - i,
    {
        let c = s.get_char(i);
        if !(c == '\t' || (32 <= c as u32 && c as u32 <= 126)) {
            assert(!is_visible(s@[i as int]));
            return false;
        }
        i = i + 1;
    }
    true
}

} // verus!
