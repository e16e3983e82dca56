//! Entity type names of the authorization engine.
//!
//! A name is a sequence of parts joined by `::`. Every part starts with `_` or an
//! ASCII letter, continues with `_`, ASCII letters or digits, and is none of the
//! engine's reserved keywords.
use vstd::prelude::*;
use vstd::std_specs::cmp::PartialEqSpecImpl;

use crate::chars::{ascii_alnum, ascii_alpha, is_ascii_alnum, is_ascii_alpha};

verus! {

/// Why a text is not an entity type name: the first fault found, scanning the
/// parts from left to right and each part from its first character on.
#[derive(Debug, Clone, Copy, PartialEq, Eq, Structural)]
pub enum EntityTypeNameError {
    /// A part is one of the reserved keywords.
    ReservedKeyword,
    /// A part is empty.
    EmptyPart,
    /// A part starts with this character, which is neither `_` nor an ASCII letter.
    InvalidStart(char),
    /// A part holds this character after its first one, which is neither `_` nor ASCII alphanumeric.
    InvalidChar(char),
}

/// The keywords that no part may be.
pub open spec fn is_reserved(p: Seq<char>) -> bool {
    ||| p == seq!['t', 'r', 'u', 'e']
    ||| p == seq!['f', 'a', 'l', 's', 'e']
    ||| p == seq!['i', 'f']
    ||| p == seq!['t', 'h', 'e', 'n']
    ||| p == seq!['e', 'l', 's', 'e']
    ||| p == seq!['i', 'n']
    ||| p == seq!['i', 's']
    ||| p == seq!['l', 'i', 'k', 'e']
    ||| p == seq!['h', 'a', 's']
    ||| p == seq!['_', '_', 'c', 'e', 'd', 'a', 'r']
}

/// A `::` separator starts at index `i` of `s`.
pub open spec fn sep_at(s: Seq<char>, i: int) -> bool {
    0 <= i && i + 1 < s.len() && s[i] == ':' && s[i + 1] == ':'
}

/// The index of the first separator at or after `i`, or `s.len()` when there is none.
pub open spec fn next_sep(s: Seq<char>, i: int) -> int
    decreases s.len() - i,
{
    if i < 0 || i + 1 >= s.len() {
        s.len() as int
    } else if sep_at(s, i) {
        i
    } else {
        next_sep(s, i + 1)
    }
}

/// The first character of `p` at or after index `k` that may not follow the start of a part.
pub open spec fn first_bad_char(p: Seq<char>, k: int) -> Option<char>
    decreases p.len() - k,
{
    if k < 0 || k >= p.len() {
        None
    } else if !(p[k] == '_' || is_ascii_alnum(p[k])) {
        Some(p[k])
    } else {
        first_bad_char(p, k + 1)
    }
}

/// The fault of a single part, if it has one.
pub open spec fn part_fault(p: Seq<char>) -> Option<EntityTypeNameError> {
    if is_reserved(p) {
        Some(EntityTypeNameError::ReservedKeyword)
    } else if p.len() == 0 {
        Some(EntityTypeNameError::EmptyPart)
    } else if !(p[0] == '_' || is_ascii_alpha(p[0])) {
        Some(EntityTypeNameError::InvalidStart(p[0]))
    } else {
        match first_bad_char(p, 1) {
            Some(c) => Some(EntityTypeNameError::InvalidChar(c)),
            None => None,
        }
    }
}

pub proof fn lemma_next_sep_bounds(s: Seq<char>, i: int)
    requires
        0 <= i,
    ensures
        i <= next_sep(s, i) || next_sep(s, i) == s.len(),
        next_sep(s, i) <= s.len(),
        next_sep(s, i) < s.len() ==> sep_at(s, next_sep(s, i)),
        next_sep(s, i) < s.len() ==> next_sep(s, i) + 2 <= s.len(),
        forall|k: int| i <= k < next_sep(s, i) ==> !sep_at(s, k),
    decreases s.len() - i,
{
    if i + 1 >= s.len() {
    } else if sep_at(s, i) {
    } else {
        lemma_next_sep_bounds(s, i + 1);
    }
}

/// The first fault of a text, taking its `::`-separated parts from left to right.
pub open spec fn name_fault(s: Seq<char>) -> Option<EntityTypeNameError>
    decreases s.len(),
{
    let j = next_sep(s, 0);
    match part_fault(s.take(j)) {
        Some(f) => Some(f),
        None => if j >= s.len() {
            None
        } else {
            proof {
                lemma_next_sep_bounds(s, 0);
            }
            name_fault(s.skip(j + 2))
        },
    }
}

/// `s` is a valid entity type name.
pub open spec fn is_entity_type_name(s: Seq<char>) -> bool {
    name_fault(s) is None
}

/// A text with no `:` has no separator from `i` on.
proof fn lemma_next_sep_without_colon(s: Seq<char>, i: int)
    requires
        0 <= i,
        forall|k: int| 0 <= k < s.len() ==> s[k] != ':',
    ensures
        next_sep(s, i) == s.len(),
    decreases s.len() - i,
{
    if i + 1 < s.len() {
        lemma_next_sep_without_colon(s, i + 1);
    }
}

/// A part whose characters from `k` on are all `_` or ASCII alphanumeric has no bad character there.
proof fn lemma_no_bad_char(p: Seq<char>, k: int)
    requires
        0 <= k,
        forall|j: int| k <= j < p.len() ==> p[j] == '_' || is_ascii_alnum(p[j]),
    ensures
        first_bad_char(p, k) is None,
    decreases p.len() - k,
{
    if k < p.len() {
        lemma_no_bad_char(p, k + 1);
    }
}

/// A single part that starts with `_` or an ASCII letter, continues with `_` or ASCII
/// alphanumeric characters and is no reserved keyword is a valid entity type name.
pub proof fn lemma_single_part_name(s: Seq<char>)
    requires
        s.len() > 0,
        s[0] == '_' || is_ascii_alpha(s[0]),
        forall|k: int| 0 <= k < s.len() ==> s[k] == '_' || is_ascii_alnum(s[k]),
        !is_reserved(s),
    ensures
        is_entity_type_name(s),
{
    lemma_next_sep_without_colon(s, 0);
    lemma_no_bad_char(s, 1);
    assert(s.take(s.len() as int) =~= s);
}

/// `c` may stand in an entity type name: `_`, `:` or an ASCII letter or digit.
pub open spec fn name_char(c: char) -> bool {
    c == '_' || c == ':' || ('a' <= c && c <= 'z') || ('A' <= c && c <= 'Z') || ('0' <= c && c <= '9')
}

/// A part without a bad character from `k` on holds only `_` and ASCII letters and digits there.
proof fn lemma_first_bad_char_none(p: Seq<char>, k: int)
    requires
        0 <= k,
        first_bad_char(p, k) is None,
    ensures
        forall|j: int| k <= j < p.len() ==> name_char(#[trigger] p[j]) && p[j] != ':',
    decreases p.len() - k,
{
    if k < p.len() {
        lemma_first_bad_char_none(p, k + 1);
    }
}

/// A part with a character other than `_` or an ASCII letter or digit after its first one has
/// a bad character, and the first one is such a character.
proof fn lemma_first_bad_char_some(p: Seq<char>, k: int, j: int)
    requires
        0 <= k <= j < p.len(),
        !(p[j] == '_' || is_ascii_alnum(p[j])),
    ensures
        first_bad_char(p, k) matches Some(c) && !(c == '_' || is_ascii_alnum(c)),
        exists|i: int| k <= i <= j && first_bad_char(p, k) == Some(p[i]),
    decreases p.len() - k,
{
    if k < j && (p[k] == '_' || is_ascii_alnum(p[k])) {
        lemma_first_bad_char_some(p, k + 1, j);
    }
}

/// Every character of a valid entity type name is `_`, `:` or an ASCII letter or digit: a name
/// with any other character is refused.
pub proof fn lemma_valid_name_chars(s: Seq<char>)
    requires
        is_entity_type_name(s),
    ensures
        forall|k: int| 0 <= k < s.len() ==> name_char(#[trigger] s[k]),
    decreases s.len(),
{
    let j = next_sep(s, 0);
    lemma_next_sep_bounds(s, 0);
    let p = s.take(j);
    assert(part_fault(p) is None);
    lemma_first_bad_char_none(p, 1);
    assert forall|k: int| 0 <= k < j implies name_char(#[trigger] s[k]) by {
        assert(s[k] == p[k]);
    }
    if j < s.len() {
        lemma_valid_name_chars(s.skip(j + 2));
        assert forall|k: int| 0 <= k < s.len() implies name_char(#[trigger] s[k]) by {
            if k >= j + 2 {
                assert(s[k] == s.skip(j + 2)[k - (j + 2)]);
            } else if k >= j {
                assert(sep_at(s, j));
            }
        }
    }
}

/// A single part (no `:`) that starts well and is no keyword, but holds a character other than
/// `_` or an ASCII letter or digit, is refused with `InvalidChar` of such a character.
pub proof fn lemma_bad_char_refused(s: Seq<char>, j: int)
    requires
        0 < j < s.len(),
        forall|k: int| 0 <= k < s.len() ==> s[k] != ':',
        s[0] == '_' || is_ascii_alpha(s[0]),
        !is_reserved(s),
        !(s[j] == '_' || is_ascii_alnum(s[j])),
    ensures
        name_fault(s) matches Some(EntityTypeNameError::InvalidChar(c)) && !name_char(c),
{
    lemma_next_sep_without_colon(s, 0);
    assert(s.take(s.len() as int) =~= s);
    lemma_first_bad_char_some(s, 1, j);
}

/// `s.subrange(from, to)` equals `word`.
fn range_equals(input: &str, from: usize, to: usize, word: &[char]) -> (res: bool)
    requires
        from <= to <= input@.len(),
    ensures
        res == (input@.subrange(from as int, to as int) == word@),
{
    if to - from != word.len() {
        return false;
    }
    let mut k: usize = 0;
    while k < word.len()
        invariant
            from <= to <= input@.len(),
            to - from == word@.len(),
            k <= word@.len(),
            forall|m: int| 0 <= m < k ==> input@[from + m] == word@[m],
        decreases word@.len() - k,
    {
        if input.get_char(from + k) != word[k] {
            assert(input@.subrange(from as int, to as int)[k as int] != word@[k as int]);
            return false;
        }
        k = k + 1;
    }
    assert(input@.subrange(from as int, to as int) =~= word@);
    true
}

/// The fault of the part `input@.subrange(from, to)`, as `part_fault` states it.
fn check_part(input: &str, from: usize, to: usize) -> (res: Result<(), EntityTypeNameError>)
    requires
        from <= to <= input@.len(),
    ensures
        res == (match part_fault(input@.subrange(from as int, to as int)) {
            Some(f) => Err(f),
            None => Ok(()),
        }),
{
    let ghost p = input@.subrange(from as int, to as int);
    let reserved = range_equals(input, from, to, &['t', 'r', 'u', 'e'])
        || range_equals(input, from, to, &['f', 'a', 'l', 's', 'e'])
        || range_equals(input, from, to, &['i', 'f'])
        || range_equals(input, from, to, &['t', 'h', 'e', 'n'])
        || range_equals(input, from, to, &['e', 'l', 's', 'e'])
        || range_equals(input, from, to, &['i', 'n'])
        || range_equals(input, from, to, &['i', 's'])
        || range_equals(input, from, to, &['l', 'i', 'k', 'e'])
        || range_equals(input, from, to, &['h', 'a', 's'])
        || range_equals(input, from, to, &['_', '_', 'c', 'e', 'd', 'a', 'r']);
    assert(reserved == is_reserved(p));
    if reserved {
        return Err(EntityTypeNameError::ReservedKeyword);
    }
    if from == to {
        return Err(EntityTypeNameError::EmptyPart);
    }
    let c0 = input.get_char(from);
    if !(c0 == '_' || ascii_alpha(c0)) {
        return Err(EntityTypeNameError::InvalidStart(c0));
    }
    let mut k: usize = from + 1;
    while k < to
        invariant
            from < k <= to <= input@.len(),
            p == input@.subrange(from as int, to as int),
            first_bad_char(p, 1) == first_bad_char(p, k - from),
            p.len() > 0,
            p[0] == '_' || is_ascii_alpha(p[0]),
            !is_reserved(p),
        decreases to - k,
    {
        let c = input.get_char(k);
        assert(p[k - from] == c);
        if !(c == '_' || ascii_alnum(c)) {
            assert(first_bad_char(p, k - from) == Some(c));
            return Err(EntityTypeNameError::InvalidChar(c));
        }
        k = k + 1;
    }
    Ok(())
}

/// Checks that `input` is an entity type name, and names its first fault otherwise.
pub fn validate(input: &str) -> (res: Result<(), EntityTypeNameError>)
    ensures
        res == (match name_fault(input@) {
            Some(f) => Err(f),
            None => Ok(()),
        }),
        res is Ok ==> forall|k: int| 0 <= k < input@.len() ==> name_char(#[trigger] input@[k]),
{
    proof {
        if name_fault(input@) is None {
            lemma_valid_name_chars(input@);
        }
    }
    let n = input.unicode_len();
    let ghost s = input@;
    let mut start: usize = 0;
    let mut i: usize = 0;
    assert(s.skip(0) =~= s);
    loop
        invariant
            n == s.len(),
            s == input@,
            start <= i <= n,
            name_fault(s) is None ==> forall|m: int| 0 <= m < s.len() ==> name_char(#[trigger] s[m]),
            name_fault(s) == name_fault(s.skip(start as int)),
            next_sep(s.skip(start as int), 0) == next_sep(s.skip(start as int), i - start),
        decreases n - i,
    {
        let ghost t = s.skip(start as int);
        if n - i <= 1 {
            assert(next_sep(t, i - start) == t.len());
            assert(t.take(t.len() as int) =~= s.subrange(start as int, n as int));
            check_part(input, start, n)?;
            return Ok(());
        }
        if input.get_char(i) == ':' && input.get_char(i + 1) == ':' {
            assert(sep_at(t, i - start));
            assert(t.take(i - start) =~= s.subrange(start as int, i as int));
            check_part(input, start, i)?;
            proof {
                lemma_next_sep_bounds(t, 0);
                assert(t.skip(i - start + 2) =~= s.skip(i + 2));
            }
            start = i + 2;
            i = i + 2;
            proof {
                let t2 = s.skip(start as int);
                assert(next_sep(t2, 0) == next_sep(t2, i - start));
            }
        } else {
            assert(!sep_at(t, i - start));
            i = i + 1;
        }
    }
}

/// The name of an entity type. Two names are equal where their texts are; they are ordered
/// and hashed by their texts.
#[derive(Debug, Clone, Copy, Eq, PartialOrd, Ord, Hash)]
pub struct EntityTypeName(&'static str);

impl PartialEq for EntityTypeName {
    fn eq(&self, other: &Self) -> (res: bool) {
        let n = self.0.unicode_len();
        if n != other.0.unicode_len() {
            return false;
        }
        let mut i: usize = 0;
        while i < n
            invariant
                i <= n,
                n == self.0@.len(),
                n == other.0@.len(),
                forall|j: int| 0 <= j < i ==> self.0@[j] == other.0@[j],
            decreases n - i,
        {
            if self.0.get_char(i) != other.0.get_char(i) {
                return false;
            }
            i = i + 1;
        }
        assert(self.0@ =~= other.0@);
        true
    }
}

impl PartialEqSpecImpl for EntityTypeName {
    open spec fn obeys_eq_spec() -> bool {
        true
    }

    open spec fn eq_spec(&self, other: &Self) -> bool {
        self.text() == other.text()
    }
}

impl EntityTypeName {
    /// The text of the name.
    pub closed spec fn text(&self) -> Seq<char> {
        self.0@
    }

    /// A name from its text, which must be a valid entity type name.
    pub fn new(input: &'static str) -> (res: Self)
        requires
            is_entity_type_name(input@),
        ensures
            res.text() == input@,
    {
        EntityTypeName(input)
    }

    /// The text of the name.
    pub fn as_str(&self) -> (res: &'static str)
        ensures
            res@ == self.text(),
    {
        self.0
    }

    /// The text of the name, as an owned string.
    pub fn to_string(&self) -> (res: String)
        ensures
            res@ == self.text(),
    {
        String::from_str(self.0)
    }
}

} // verus!
