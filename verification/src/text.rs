//! Text helpers: building strings from characters, trimming and e-mail normalization.
use vstd::prelude::*;

use crate::chars::{ascii_lower, is_white_space, white_space};

verus! {

/// `std`'s `FromIterator<char>` for `String`: the string of the characters of `v`, in order.
#[verifier::external_body]
pub(crate) fn string_from_chars(v: &Vec<char>) -> (res: String)
    ensures
        res@ == v@,
{
    v.iter().collect()
}

/// The characters of `s`, in order.
pub(crate) fn chars_of(s: &str) -> (res: Vec<char>)
    ensures
        res@ == s@,
{
    let n = s.unicode_len();
    let mut out: Vec<char> = Vec::new();
    let mut i: usize = 0;
    while i < n
        invariant
            n == s@.len(),
            i <= n,
            out@ == s@.take(i as int),
        decreases n - i,
    {
        out.push(s.get_char(i));
        i = i + 1;
        assert(out@ =~= s@.take(i as int));
    }
    assert(s@.take(n as int) =~= s@);
    out
}

/// `s` without its leading white space.
pub open spec fn trim_start(s: Seq<char>) -> Seq<char>
    decreases s.len(),
{
    if s.len() > 0 && is_white_space(s[0]) {
        trim_start(s.drop_first())
    } else {
        s
    }
}

/// `s` without its trailing white space.
pub open spec fn trim_end(s: Seq<char>) -> Seq<char>
    decreases s.len(),
{
    if s.len() > 0 && is_white_space(s.last()) {
        trim_end(s.drop_last())
    } else {
        s
    }
}

/// `s` without its leading and trailing white space, as `str::trim` gives it.
pub open spec fn trim(s: Seq<char>) -> Seq<char> {
    trim_end(trim_start(s))
}

/// `s` with every ASCII upper-case letter replaced by its lower-case form.
pub open spec fn ascii_lowercase(s: Seq<char>) -> Seq<char> {
    s.map_values(|c: char| ascii_lower(c))
}

/// The normal form of an e-mail address: trimmed, then ASCII-lower-cased.
pub open spec fn normalized_email(s: Seq<char>) -> Seq<char> {
    ascii_lowercase(trim(s))
}

proof fn lemma_trim_start_skip(s: Seq<char>, a: int)
    requires
        0 <= a <= s.len(),
        forall|k: int| 0 <= k < a ==> is_white_space(s[k]),
        a == s.len() || !is_white_space(s[a]),
    ensures
        trim_start(s) == s.skip(a),
    decreases a,
{
    if a == 0 {
        assert(s.skip(0) =~= s);
    } else {
        lemma_trim_start_skip(s.drop_first(), a - 1);
        assert(s.drop_first().skip(a - 1) =~= s.skip(a));
    }
}

proof fn lemma_trim_end_take(s: Seq<char>, b: int)
    requires
        0 <= b <= s.len(),
        forall|k: int| b <= k < s.len() ==> is_white_space(s[k]),
        b == 0 || !is_white_space(s[b - 1]),
    ensures
        trim_end(s) == s.take(b),
    decreases s.len() - b,
{
    if b == s.len() {
        assert(s.take(b) =~= s);
    } else {
        lemma_trim_end_take(s.drop_last(), b);
        assert(s.drop_last().take(b) =~= s.take(b));
    }
}

proof fn lemma_trim_start_first(s: Seq<char>)
    ensures
        trim_start(s).len() == 0 || !is_white_space(trim_start(s)[0]),
    decreases s.len(),
{
    if s.len() > 0 && is_white_space(s[0]) {
        lemma_trim_start_first(s.drop_first());
    }
}

proof fn lemma_trim_end_prefix(u: Seq<char>)
    ensures
        trim_end(u).len() <= u.len(),
        trim_end(u) == u.take(trim_end(u).len() as int),
        trim_end(u).len() == 0 || !is_white_space(trim_end(u).last()),
    decreases u.len(),
{
    if u.len() > 0 && is_white_space(u.last()) {
        lemma_trim_end_prefix(u.drop_last());
        let t = trim_end(u.drop_last());
        assert(u.drop_last().take(t.len() as int) =~= u.take(t.len() as int));
    } else {
        assert(u.take(u.len() as int) =~= u);
    }
}

/// The trimmed text neither starts nor ends with white space.
proof fn lemma_trim_edges(s: Seq<char>)
    ensures
        trim(s).len() == 0 || (!is_white_space(trim(s)[0]) && !is_white_space(trim(s).last())),
{
    lemma_trim_start_first(s);
    lemma_trim_end_prefix(trim_start(s));
}

/// A text that neither starts nor ends with white space is its own trimmed form.
proof fn lemma_trim_of_trimmed(t: Seq<char>)
    requires
        t.len() == 0 || (!is_white_space(t[0]) && !is_white_space(t.last())),
    ensures
        trim(t) == t,
{
    lemma_trim_start_skip(t, 0);
    assert(t.skip(0) =~= t);
    lemma_trim_end_take(t, t.len() as int);
    assert(t.take(t.len() as int) =~= t);
}

/// Lower-casing keeps white space and everything else apart, and lower-cases only once.
proof fn lemma_ascii_lower_char(c: char)
    ensures
        is_white_space(ascii_lower(c)) == is_white_space(c),
        ascii_lower(ascii_lower(c)) == ascii_lower(c),
{
}

/// Normalizing an e-mail address that is already normal leaves it as it is, so an address
/// compares equal to its stored form however often it was normalized.
pub proof fn lemma_normalize_email_idempotent(s: Seq<char>)
    ensures
        normalized_email(normalized_email(s)) == normalized_email(s),
{
    let t = trim(s);
    let l = ascii_lowercase(t);
    lemma_trim_edges(s);
    if l.len() > 0 {
        lemma_ascii_lower_char(t[0]);
        lemma_ascii_lower_char(t.last());
        assert(l[0] == ascii_lower(t[0]));
        assert(l.last() == ascii_lower(t.last()));
    }
    lemma_trim_of_trimmed(l);
    assert forall|k: int| 0 <= k < l.len() implies #[trigger] ascii_lower(l[k]) == l[k] by {
        lemma_ascii_lower_char(t[k]);
    }
    assert(ascii_lowercase(l) =~= l);
}

/// The position of the first non-white-space character of `s` (or `s.len()`), and the
/// position just after its last one (or the first position when there is none).
pub(crate) fn trim_bounds(s: &str) -> (res: (usize, usize))
    ensures
        res.0 <= res.1 <= s@.len(),
        trim(s@) == s@.subrange(res.0 as int, res.1 as int),
{
    let n = s.unicode_len();
    let mut a: usize = 0;
    while a < n && white_space(s.get_char(a))
        invariant
            n == s@.len(),
            a <= n,
            forall|k: int| 0 <= k < a ==> is_white_space(s@[k]),
        decreases n - a,
    {
        a = a + 1;
    }
    let mut b: usize = n;
    while b > a && white_space(s.get_char(b - 1))
        invariant
            n == s@.len(),
            a <= b <= n,
            forall|k: int| b <= k < n ==> is_white_space(s@[k]),
        decreases b,
    {
        b = b - 1;
    }
    proof {
        lemma_trim_start_skip(s@, a as int);
        let t = s@.skip(a as int);
        assert forall|k: int| (b - a) <= k < t.len() implies is_white_space(t[k]) by {
            assert(t[k] == s@[k + a]);
        }
        if b > a {
            assert(t[b - a - 1] == s@[b - 1]);
        }
        lemma_trim_end_take(t, (b - a) as int);
        assert(t.take((b - a) as int) =~= s@.subrange(a as int, b as int));
    }
    (a, b)
}

/// Normalizes an e-mail address: surrounding white space is removed and ASCII
/// letters are lower-cased; every other character is kept as it is.
pub fn normalize_email(email: &str) -> (res: String)
    ensures
        res@ == normalized_email(email@),
{
    let (a, b) = trim_bounds(email);
    let ghost t = email@.subrange(a as int, b as int);
    let mut out: Vec<char> = Vec::new();
    let mut i: usize = a;
    while i < b
        invariant
            a <= i <= b <= email@.len(),
            t == email@.subrange(a as int, b as int),
            out@ == ascii_lowercase(t).take(i - a),
        decreases b - i,
    {
        let c = email.get_char(i);
        let lc = if 'A' <= c && c <= 'Z' {
            ((c as u8) + 32) as char
        } else {
            c
        };
        out.push(lc);
        i = i + 1;
        assert(out@ =~= ascii_lowercase(t).take(i - a));
    }
    assert(ascii_lowercase(t).take(b - a) =~= ascii_lowercase(t));
    string_from_chars(&out)
}

/// The index of the first `c` in `s` at or after `from`, or `s.len()` when there is none.
pub open spec fn index_of_from(s: Seq<char>, c: char, from: int) -> int
    decreases s.len() - from,
{
    if from < 0 || from >= s.len() {
        s.len() as int
    } else if s[from] == c {
        from
    } else {
        index_of_from(s, c, from + 1)
    }
}

pub proof fn lemma_index_of_from(s: Seq<char>, c: char, from: int)
    requires
        0 <= from <= s.len(),
    ensures
        from <= index_of_from(s, c, from) <= s.len(),
        index_of_from(s, c, from) < s.len() ==> s[index_of_from(s, c, from)] == c,
        forall|k: int| from <= k < index_of_from(s, c, from) ==> s[k] != c,
    decreases s.len() - from,
{
    if from < s.len() && s[from] != c {
        lemma_index_of_from(s, c, from + 1);
    }
}

/// The index of the first `c` in `s` at or after `from`, or `s@.len()`.
pub fn find_char(s: &str, c: char, from: usize) -> (res: usize)
    requires
        from <= s@.len(),
    ensures
        res == index_of_from(s@, c, from as int),
{
    let n = s.unicode_len();
    let mut i = from;
    while i < n && s.get_char(i) != c
        invariant
            n == s@.len(),
            from <= i <= n,
            index_of_from(s@, c, from as int) == index_of_from(s@, c, i as int),
        decreases n - i,
    {
        i = i + 1;
    }
    i
}

/// The characters of `s` from `from` up to `to`, as a string.
pub(crate) fn substring(s: &str, from: usize, to: usize) -> (res: String)
    requires
        from <= to <= s@.len(),
    ensures
        res@ == s@.subrange(from as int, to as int),
{
    s.substring_char(from, to).to_owned()
}

} // verus!
