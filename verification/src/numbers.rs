//! Decimal integer parsing for option values.
//!
//! The option parser needs `i32` and `u64` values read from command-line
//! strings. A valid literal is an optional sign (`-` only for the signed
//! form) followed by at least one ASCII digit, and must fit the target type;
//! anything else is rejected.

use vstd::prelude::*;

verus! {

/// Whether `c` is an ASCII decimal digit (code points 48 through 57).
pub open spec fn is_digit(c: char) -> bool {
    48 <= c as int && c as int <= 57
}

/// The numeric value of an ASCII decimal digit.
pub open spec fn digit_val(c: char) -> int {
    c as int - 48
}

/// Whether every character of `s` is an ASCII decimal digit.
pub open spec fn all_digits(s: Seq<char>) -> bool {
    forall|i: int| 0 <= i < s.len() ==> is_digit(s[i])
}

/// The value of a digit string read in base 10; the empty string counts 0.
pub open spec fn digits_val(s: Seq<char>) -> int
    decreases s.len(),
{
    if s.len() == 0 {
        0
    } else {
        digits_val(s.drop_last()) * 10 + digit_val(s.last())
    }
}

/// The digits of an integer literal: everything after a leading sign.
pub open spec fn int_body(s: Seq<char>) -> Seq<char> {
    if s.len() > 0 && (s[0] == '-' || s[0] == '+') {
        s.skip(1)
    } else {
        s
    }
}

/// Whether `s` starts with a minus sign.
pub open spec fn has_minus_sign(s: Seq<char>) -> bool {
    s.len() > 0 && s[0] == '-'
}

/// Whether `s` is an integer literal: an optional sign followed by one or
/// more ASCII decimal digits.
pub open spec fn is_int_literal(s: Seq<char>) -> bool {
    int_body(s).len() > 0 && all_digits(int_body(s))
}

/// The mathematical value of an integer literal.
pub open spec fn int_value(s: Seq<char>) -> int {
    if has_minus_sign(s) {
        -digits_val(int_body(s))
    } else {
        digits_val(int_body(s))
    }
}

/// What parsing `s` as an `i32` yields: the literal's value when `s` is a
/// well-formed literal in range, and nothing otherwise.
pub open spec fn spec_parse_i32(s: Seq<char>) -> Option<i32> {
    if is_int_literal(s) && -2147483648 <= int_value(s) && int_value(s) <= 2147483647 {
        Some(int_value(s) as i32)
    } else {
        None
    }
}

/// What parsing `s` as a `u64` yields: the literal's value when `s` is a
/// well-formed unsigned literal in range (a minus sign is never accepted),
/// and nothing otherwise.
pub open spec fn spec_parse_u64(s: Seq<char>) -> Option<u64> {
    if is_int_literal(s) && !has_minus_sign(s) && int_value(s) <= 0xffff_ffff_ffff_ffff {
        Some(int_value(s) as u64)
    } else {
        None
    }
}

/// A digit string's value is never negative.
proof fn lemma_digits_val_nonneg(s: Seq<char>)
    requires
        all_digits(s),
    ensures
        digits_val(s) >= 0,
    decreases s.len(),
{
    if s.len() > 0 {
        lemma_digits_val_nonneg(s.drop_last());
    }
}

/// Reading further digits never shrinks the value: a prefix of a digit
/// string is worth at most the whole string.
proof fn lemma_digits_val_prefix(s: Seq<char>, i: int)
    requires
        all_digits(s),
        0 <= i <= s.len(),
    ensures
        digits_val(s.subrange(0, i)) <= digits_val(s),
    decreases s.len() - i,
{
    if i < s.len() {
        let shorter = s.subrange(0, i);
        let longer = s.subrange(0, i + 1);
        assert(longer.drop_last() =~= shorter);
        lemma_digits_val_nonneg(shorter);
        lemma_digits_val_prefix(s, i + 1);
    } else {
        assert(s.subrange(0, i) =~= s);
    }
}

/// Parse `s` as a decimal `i32`, exactly as `spec_parse_i32` describes.
pub fn parse_i32(s: &str) -> (r: Option<i32>)
    ensures
        r == spec_parse_i32(s@),
{
    let n: usize = s.unicode_len();
    if n == 0 {
        return None;
    }
    let c0: char = s.get_char(0);
    let neg: bool = c0 == '-';
    let start: usize = if c0 == '-' || c0 == '+' {
        1
    } else {
        0
    };
    if n == start {
        return None;
    }
    let ghost body = int_body(s@);
    proof {
        assert(body =~= s@.subrange(start as int, n as int));
    }
    let mut acc: u64 = 0;
    let mut i: usize = start;
    while i < n
        invariant
            start <= i <= n,
            n == s@.len(),
            start < n,
            body == s@.subrange(start as int, n as int),
            body == int_body(s@),
            neg == has_minus_sign(s@),
            all_digits(s@.subrange(start as int, i as int)),
            acc == digits_val(s@.subrange(start as int, i as int)),
            acc <= 2147483648,
        decreases n - i,
    {
        let c: char = s.get_char(i);
        let u: u32 = c as u32;
        if u < 48 || u > 57 {
            proof {
                assert(body[i - start] == s@[i as int]);
            }
            return None;
        }
        let d: u64 = (u - 48) as u64;
        let ghost prefix = s@.subrange(start as int, i as int);
        let ghost extended = s@.subrange(start as int, i + 1);
        proof {
            assert(extended.drop_last() =~= prefix);
        }
        acc = acc * 10 + d;
        if acc > 2147483648 {
            proof {
                if is_int_literal(s@) {
                    assert(extended =~= body.subrange(0, i + 1 - start));
                    lemma_digits_val_prefix(body, i + 1 - start);
                }
            }
            return None;
        }
        i += 1;
    }
    proof {
        assert(s@.subrange(start as int, i as int) =~= body);
    }
    if neg {
        let v: i64 = 0 - (acc as i64);
        Some(v as i32)
    } else {
        if acc > 2147483647 {
            None
        } else {
            Some(acc as i32)
        }
    }
}

/// Parse `s` as a decimal `u64`, exactly as `spec_parse_u64` describes.
pub fn parse_u64(s: &str) -> (r: Option<u64>)
    ensures
        r == spec_parse_u64(s@),
{
    let n: usize = s.unicode_len();
    if n == 0 {
        return None;
    }
    let c0: char = s.get_char(0);
    if c0 == '-' {
        return None;
    }
    let start: usize = if c0 == '+' {
        1
    } else {
        0
    };
    if n == start {
        return None;
    }
    let ghost body = int_body(s@);
    proof {
        assert(body =~= s@.subrange(start as int, n as int));
    }
    let mut acc: u64 = 0;
    let mut i: usize = start;
    while i < n
        invariant
            start <= i <= n,
            n == s@.len(),
            start < n,
            body == s@.subrange(start as int, n as int),
            body == int_body(s@),
            !has_minus_sign(s@),
            all_digits(s@.subrange(start as int, i as int)),
            acc == digits_val(s@.subrange(start as int, i as int)),
        decreases n - i,
    {
        let c: char = s.get_char(i);
        let u: u32 = c as u32;
        if u < 48 || u > 57 {
            proof {
                assert(body[i - start] == s@[i as int]);
            }
            return None;
        }
        let d: u64 = (u - 48) as u64;
        let ghost prefix = s@.subrange(start as int, i as int);
        let ghost extended = s@.subrange(start as int, i + 1);
        proof {
            assert(extended.drop_last() =~= prefix);
        }
        let wide: u128 = (acc as u128) * 10 + (d as u128);
        if wide > 0xffff_ffff_ffff_ffff {
            proof {
                if is_int_literal(s@) {
                    assert(extended =~= body.subrange(0, i + 1 - start));
                    lemma_digits_val_prefix(body, i + 1 - start);
                }
            }
            return None;
        }
        acc = wide as u64;
        i += 1;
    }
    proof {
        assert(s@.subrange(start as int, i as int) =~= body);
    }
    Some(acc)
}

} // verus!
