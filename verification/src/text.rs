//! Small verified text utilities: substring search, whitespace trimming and
//! character-wise string comparison, used by the option parser and the
//! compositor-output parsers.

use vstd::prelude::*;

verus! {

/// Whether `needle` occurs in `hay` starting at position `i`.
pub open spec fn matches_at(hay: Seq<char>, needle: Seq<char>, i: int) -> bool {
    0 <= i && i + needle.len() <= hay.len() && hay.subrange(i, i + needle.len()) == needle
}

/// The position of the first occurrence of `needle` in `hay` at or after
/// `from`, if any.
pub open spec fn first_match(hay: Seq<char>, needle: Seq<char>, from: int) -> Option<int>
    decreases hay.len() - from + 1,
{
    if from < 0 || from + needle.len() > hay.len() {
        None
    } else if hay.subrange(from, from + needle.len()) == needle {
        Some(from)
    } else {
        first_match(hay, needle, from + 1)
    }
}

/// Find the first occurrence of `needle` in `hay`, by character position.
pub fn find_sub(hay: &str, needle: &str) -> (r: Option<usize>)
    ensures
        match r {
            Some(i) => first_match(hay@, needle@, 0) == Some(i as int),
            None => first_match(hay@, needle@, 0) is None,
        },
{
    let n: usize = hay.unicode_len();
    let m: usize = needle.unicode_len();
    if m > n {
        return None;
    }
    if m == 0 {
        proof {
            assert(hay@.subrange(0, 0) =~= needle@);
        }
        return Some(0);
    }
    let mut i: usize = 0;
    while i <= n - m
        invariant
            n == hay@.len(),
            m == needle@.len(),
            0 < m <= n,
            i <= n - m + 1,
            first_match(hay@, needle@, 0) == first_match(hay@, needle@, i as int),
        decreases n - i,
    {
        let mut j: usize = 0;
        let mut mismatch: bool = false;
        while j < m
            invariant
                n == hay@.len(),
                m == needle@.len(),
                i + m <= n,
                j <= m,
                !mismatch ==> forall|k: int| 0 <= k < j ==> hay@[i + k] == needle@[k],
                mismatch ==> hay@.subrange(i as int, i + m) != needle@,
            decreases m - j,
        {
            proof {
                assert(hay@.subrange(i as int, i + m)[j as int] == hay@[i + j]);
            }
            if hay.get_char(i + j) != needle.get_char(j) {
                mismatch = true;
                j = m;
            } else {
                j += 1;
            }
        }
        if !mismatch {
            proof {
                assert(hay@.subrange(i as int, i + m) =~= needle@);
            }
            return Some(i);
        }
        i += 1;
    }
    None
}

/// A match found by `first_match` lies within bounds and really matches.
pub proof fn lemma_first_match_bounds(hay: Seq<char>, needle: Seq<char>, from: int, i: int)
    requires
        first_match(hay, needle, from) == Some(i),
    ensures
        from <= i,
        i + needle.len() <= hay.len(),
        matches_at(hay, needle, i),
    decreases hay.len() - from + 1,
{
    if !(from < 0 || from + needle.len() > hay.len())
        && hay.subrange(from, from + needle.len()) != needle {
        lemma_first_match_bounds(hay, needle, from + 1, i);
    }
}

/// The position of the first occurrence of the character `c` in `s` at or
/// after `from`, if any.
pub open spec fn first_char_at(s: Seq<char>, c: char, from: int) -> Option<int>
    decreases s.len() - from + 1,
{
    if from < 0 || from >= s.len() {
        None
    } else if s[from] == c {
        Some(from)
    } else {
        first_char_at(s, c, from + 1)
    }
}

/// Find the first occurrence of the character `c` in `s` at or after `from`.
pub fn find_char(s: &str, c: char, from: usize) -> (r: Option<usize>)
    ensures
        match r {
            Some(i) => from <= i < s@.len() && s@[i as int] == c && first_char_at(
                s@,
                c,
                from as int,
            ) == Some(i as int),
            None => first_char_at(s@, c, from as int) is None,
        },
{
    let n: usize = s.unicode_len();
    let mut i: usize = from;
    while i < n
        invariant
            from <= i,
            n == s@.len(),
            first_char_at(s@, c, from as int) == first_char_at(s@, c, i as int),
        decreases n - i,
    {
        if s.get_char(i) == c {
            return Some(i);
        }
        i += 1;
    }
    None
}

/// Whether `c` is an ASCII whitespace character (space, tab, line feed,
/// vertical tab, form feed or carriage return).
pub open spec fn is_space(c: char) -> bool {
    c as int == 32 || c as int == 9 || c as int == 10 || c as int == 11 || c as int == 12
        || c as int == 13
}

/// Executable test for `is_space`.
pub fn is_space_char(c: char) -> (r: bool)
    ensures
        r == is_space(c),
{
    let u: u32 = c as u32;
    u == 32 || u == 9 || u == 10 || u == 11 || u == 12 || u == 13
}

/// `s` with its leading whitespace removed.
pub open spec fn drop_leading_spaces(s: Seq<char>) -> Seq<char>
    decreases s.len(),
{
    if s.len() > 0 && is_space(s[0]) {
        drop_leading_spaces(s.skip(1))
    } else {
        s
    }
}

/// `s` with its trailing whitespace removed.
pub open spec fn drop_trailing_spaces(s: Seq<char>) -> Seq<char>
    decreases s.len(),
{
    if s.len() > 0 && is_space(s.last()) {
        drop_trailing_spaces(s.drop_last())
    } else {
        s
    }
}

/// `s` with whitespace removed from both ends.
pub open spec fn trimmed(s: Seq<char>) -> Seq<char> {
    drop_trailing_spaces(drop_leading_spaces(s))
}

/// Dropping leading whitespace keeps exactly the characters from the first
/// non-space position on.
proof fn lemma_drop_leading_is_skip(s: Seq<char>, lo: int)
    requires
        0 <= lo <= s.len(),
        forall|j: int| 0 <= j < lo ==> is_space(s[j]),
        lo < s.len() ==> !is_space(s[lo]),
    ensures
        drop_leading_spaces(s) == s.skip(lo),
    decreases s.len(),
{
    if lo == 0 {
        assert(s.skip(0) =~= s);
    } else {
        lemma_drop_leading_is_skip(s.skip(1), lo - 1);
        assert(s.skip(1).skip(lo - 1) =~= s.skip(lo));
    }
}

/// Dropping trailing whitespace keeps exactly the characters before the
/// last non-space position.
proof fn lemma_drop_trailing_is_take(s: Seq<char>, hi: int)
    requires
        0 <= hi <= s.len(),
        forall|j: int| hi <= j < s.len() ==> is_space(s[j]),
        hi > 0 ==> !is_space(s[hi - 1]),
    ensures
        drop_trailing_spaces(s) == s.take(hi),
    decreases s.len(),
{
    if s.len() > 0 && is_space(s.last()) {
        lemma_drop_trailing_is_take(s.drop_last(), hi);
        assert(s.drop_last().take(hi) =~= s.take(hi));
    } else {
        assert(s.take(hi) =~= s);
    }
}

/// The position of the first non-whitespace character of `s`, or the length
/// of `s` if it is all whitespace.
fn skip_spaces(s: &str) -> (lo: usize)
    ensures
        lo <= s@.len(),
        forall|j: int| 0 <= j < lo ==> is_space(s@[j]),
        lo < s@.len() ==> !is_space(s@[lo as int]),
{
    let n: usize = s.unicode_len();
    let mut lo: usize = 0;
    while lo < n
        invariant
            lo <= n,
            n == s@.len(),
            forall|j: int| 0 <= j < lo ==> is_space(s@[j]),
        decreases n - lo,
    {
        if !is_space_char(s.get_char(lo)) {
            return lo;
        }
        lo += 1;
    }
    lo
}

/// Remove ASCII whitespace from both ends of `s`, exactly as `trimmed`
/// describes.
pub fn trim(s: &str) -> (r: &str)
    ensures
        r@ == trimmed(s@),
{
    let n: usize = s.unicode_len();
    let lo: usize = skip_spaces(s);
    proof {
        lemma_drop_leading_is_skip(s@, lo as int);
    }
    let ghost led = s@.skip(lo as int);
    let mut hi: usize = n;
    while hi > lo
        invariant
            lo <= hi <= n,
            n == s@.len(),
            led == s@.skip(lo as int),
            drop_leading_spaces(s@) == led,
            forall|j: int| hi <= j < n ==> is_space(s@[j]),
        decreases hi,
    {
        if !is_space_char(s.get_char(hi - 1)) {
            let r = s.substring_char(lo, hi);
            proof {
                lemma_drop_trailing_is_take(led, hi - lo);
                assert(led.take(hi - lo) =~= s@.subrange(lo as int, hi as int));
            }
            return r;
        }
        hi -= 1;
    }
    let r = s.substring_char(0, 0);
    proof {
        lemma_drop_trailing_is_take(led, 0);
        assert(led.take(0) =~= s@.subrange(0, 0));
    }
    r
}

/// Character-wise string equality, stated over the views.
pub fn str_eq(a: &str, b: &str) -> (r: bool)
    ensures
        r == (a@ == b@),
{
    let na: usize = a.unicode_len();
    let nb: usize = b.unicode_len();
    if na != nb {
        return false;
    }
    let mut i: usize = 0;
    while i < na
        invariant
            i <= na,
            na == a@.len(),
            na == b@.len(),
            forall|j: int| 0 <= j < i ==> a@[j] == b@[j],
        decreases na - i,
    {
        if a.get_char(i) != b.get_char(i) {
            return false;
        }
        i += 1;
    }
    proof {
        assert(a@ =~= b@);
    }
    true
}

} // verus!
