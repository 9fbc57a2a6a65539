//! Parsers for the two compositor queries that report the pointer position.
//!
//! The daemon asks the primary backend for a plain `x, y` cursor position and
//! falls back to a seat-state query whose structured payload carries a
//! `"cursor_y":` field. Both answers arrive as untrusted text; these parsers
//! pull the Y-coordinate out of them and reject anything garbled. Running the
//! queries themselves is the surrounding binary's job.

use vstd::prelude::*;

use crate::numbers::is_digit;
use crate::numbers::parse_i32;
use crate::numbers::spec_parse_i32;
use crate::text::find_char;
use crate::text::find_sub;
use crate::text::first_char_at;
use crate::text::first_match;
use crate::text::lemma_first_match_bounds;
use crate::text::trim;
use crate::text::trimmed;

verus! {

/// The field label that precedes the Y-coordinate in the seat-state payload.
pub open spec fn cursor_y_key() -> Seq<char> {
    "\"cursor_y\":"@
}

/// The position of the first character at or after `from` that is not an
/// ASCII digit, if any.
pub open spec fn first_non_digit_at(s: Seq<char>, from: int) -> Option<int>
    decreases s.len() - from + 1,
{
    if from < 0 || from >= s.len() {
        None
    } else if !is_digit(s[from]) {
        Some(from)
    } else {
        first_non_digit_at(s, from + 1)
    }
}

/// The Y-coordinate read from a cursor-position answer: the second
/// comma-separated field, trimmed of whitespace, parsed as an `i32`. Absent
/// when there is no second field or it does not parse.
pub open spec fn spec_cursorpos_y(s: Seq<char>) -> Option<i32> {
    match first_char_at(s, ',', 0) {
        None => None,
        Some(i) => {
            let fend = match first_char_at(s, ',', i + 1) {
                Some(j) => j,
                None => s.len() as int,
            };
            spec_parse_i32(trimmed(s.subrange(i + 1, fend)))
        },
    }
}

/// The Y-coordinate read from a seat-state answer: the run of ASCII digits
/// that follows the first `"cursor_y":` label, parsed as an `i32`. Absent
/// when the label is missing, or the digit run reaches the end of the text
/// unterminated, or it does not parse.
pub open spec fn spec_seats_cursor_y(s: Seq<char>) -> Option<i32> {
    match first_match(s, cursor_y_key(), 0) {
        None => None,
        Some(i) => {
            let start = i + cursor_y_key().len();
            match first_non_digit_at(s, start) {
                None => None,
                Some(e) => spec_parse_i32(s.subrange(start, e)),
            }
        },
    }
}

/// Parse the primary backend's cursor-position answer, exactly as
/// `spec_cursorpos_y` describes.
pub fn cursorpos_y(s: &str) -> (r: Option<i32>)
    ensures
        r == spec_cursorpos_y(s@),
{
    let n: usize = s.unicode_len();
    match find_char(s, ',', 0) {
        None => None,
        Some(i) => {
            let fend: usize = match find_char(s, ',', i + 1) {
                Some(j) => j,
                None => n,
            };
            let field = s.substring_char(i + 1, fend);
            let t = trim(field);
            parse_i32(t)
        },
    }
}

/// Parse the fallback backend's seat-state answer, exactly as
/// `spec_seats_cursor_y` describes.
pub fn seats_cursor_y(s: &str) -> (r: Option<i32>)
    ensures
        r == spec_seats_cursor_y(s@),
{
    let key: &str = "\"cursor_y\":";
    let n: usize = s.unicode_len();
    match find_sub(s, key) {
        None => None,
        Some(i) => {
            proof {
                lemma_first_match_bounds(s@, key@, 0, i as int);
            }
            let start: usize = i + key.unicode_len();
            let mut e: usize = start;
            while e < n
                invariant
                    start <= e <= n,
                    n == s@.len(),
                    start == i + cursor_y_key().len(),
                    first_match(s@, cursor_y_key(), 0) == Some(i as int),
                    first_non_digit_at(s@, start as int) == first_non_digit_at(s@, e as int),
                decreases n - e,
            {
                let c: char = s.get_char(e);
                let u: u32 = c as u32;
                if u < 48 || u > 57 {
                    let sub = s.substring_char(start, e);
                    return parse_i32(sub);
                }
                e += 1;
            }
            None
        },
    }
}

} // verus!
