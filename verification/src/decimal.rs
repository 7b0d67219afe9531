//! Signed decimal numbers as text.
//!
//! A number is written as an optional sign, `+` or `-`, and one or more
//! ASCII digits. Nothing may stand in front of it or behind it.

use vstd::prelude::*;
use crate::text::chars_of;

verus! {

/// Whether `c` is one of the ASCII digits.
pub open spec fn is_digit(c: char) -> bool {
    '0' <= c <= '9'
}

/// The number that the digit `c` stands for.
pub open spec fn digit_value(c: char) -> int {
    c as int - '0' as int
}

/// Whether `s` consists of ASCII digits only.
pub open spec fn all_digits(s: Seq<char>) -> bool {
    forall|i: int| 0 <= i < s.len() ==> is_digit(#[trigger] s[i])
}

/// The number written by the digits `s`, most significant first.
pub open spec fn digits_value(s: Seq<char>) -> int
    decreases s.len(),
{
    if s.len() == 0 {
        0
    } else {
        10 * digits_value(s.drop_last()) + digit_value(s.last())
    }
}

/// The integer written by `s`, or `None` where `s` is not an optional sign
/// followed by at least one digit.
pub open spec fn parse_decimal(s: Seq<char>) -> Option<int> {
    if s.len() == 0 {
        None
    } else if s[0] == '-' || s[0] == '+' {
        let digits = s.skip(1);
        if digits.len() > 0 && all_digits(digits) {
            Some(if s[0] == '-' { -digits_value(digits) } else { digits_value(digits) })
        } else {
            None
        }
    } else if all_digits(s) {
        Some(digits_value(s))
    } else {
        None
    }
}

/// The integer written by `s` where it is one that an `i32` can hold.
pub open spec fn parse_decimal_i32(s: Seq<char>) -> Option<i32> {
    match parse_decimal(s) {
        Some(v) => if i32::MIN <= v <= i32::MAX {
            Some(v as i32)
        } else {
            None
        },
        None => None,
    }
}

/// Extending a run of digits by one digit shifts its value by one decimal
/// place.
proof fn lemma_digits_value_step(s: Seq<char>, k: int)
    requires
        0 <= k < s.len(),
    ensures
        digits_value(s.take(k + 1)) == 10 * digits_value(s.take(k)) + digit_value(s[k]),
{
    assert(s.take(k + 1).drop_last() =~= s.take(k));
}

/// A run of digits never stands for a negative number.
proof fn lemma_digits_value_nonnegative(s: Seq<char>)
    requires
        all_digits(s),
    ensures
        0 <= digits_value(s),
    decreases s.len(),
{
    if s.len() > 0 {
        assert(is_digit(s.last()));
        lemma_digits_value_nonnegative(s.drop_last());
    }
}

/// The value of a run of digits is at least the value of each of its
/// prefixes.
proof fn lemma_digits_value_grows(s: Seq<char>, k: int)
    requires
        0 <= k <= s.len(),
        all_digits(s),
    ensures
        0 <= digits_value(s.take(k)) <= digits_value(s),
    decreases s.len() - k,
{
    if k == 0 {
        assert(s.take(0).len() == 0);
        lemma_digits_value_nonnegative(s);
    } else {
        lemma_digits_value_nonnegative(s.take(k));
        if k == s.len() {
            assert(s.take(k) =~= s);
        } else {
            lemma_digits_value_step(s, k);
            lemma_digits_value_nonnegative(s.take(k + 1));
            lemma_digits_value_grows(s, k + 1);
        }
    }
}

/// Largest magnitude that a signed 32-bit number can have.
const MAX_MAGNITUDE: i64 = 2_147_483_648;

/// Reads the digits `chars[start..]` as a number no larger than
/// `MAX_MAGNITUDE`.
fn read_magnitude(chars: &Vec<char>, start: usize) -> (r: Option<i64>)
    requires
        start <= chars.len(),
    ensures
        match r {
            Some(m) => {
                &&& all_digits(chars@.skip(start as int))
                &&& m == digits_value(chars@.skip(start as int))
                &&& 0 <= m <= MAX_MAGNITUDE
            },
            None => {
                ||| !all_digits(chars@.skip(start as int))
                ||| digits_value(chars@.skip(start as int)) > MAX_MAGNITUDE
            },
        },
{
    let ghost digits = chars@.skip(start as int);
    let mut acc: i64 = 0;
    let mut i: usize = start;
    while i < chars.len()
        invariant
            start <= i <= chars.len(),
            digits == chars@.skip(start as int),
            all_digits(digits.take(i - start)),
            acc == digits_value(digits.take(i - start)),
            0 <= acc <= MAX_MAGNITUDE,
        decreases chars.len() - i,
    {
        let c = chars[i];
        assert(digits[i - start] == c);
        if c < '0' || c > '9' {
            assert(!is_digit(digits[i - start]));
            return None;
        }
        let d: i64 = (c as u32 - '0' as u32) as i64;
        proof {
            lemma_digits_value_step(digits, i - start);
            assert forall|j: int| 0 <= j < i - start + 1 implies is_digit(
                #[trigger] digits.take(i - start + 1)[j],
            ) by {
                if j < i - start {
                    assert(digits.take(i - start)[j] == digits[j]);
                }
            }
        }
        acc = acc * 10 + d;
        i += 1;
        if acc > MAX_MAGNITUDE {
            proof {
                if all_digits(digits) {
                    lemma_digits_value_grows(digits, i - start);
                }
            }
            return None;
        }
    }
    assert(digits.take(i - start) =~= digits);
    Some(acc)
}

/// Reads `text` as a signed decimal number.
///
/// The result is `None` where `text` is no such number and where the
/// number is out of the range of an `i32`.
pub fn parse_i32(text: &str) -> (r: Option<i32>)
    ensures
        r == parse_decimal_i32(text@),
{
    let chars = chars_of(text);
    if chars.len() == 0 {
        return None;
    }
    let negative = chars[0] == '-';
    let start: usize = if negative || chars[0] == '+' {
        1
    } else {
        0
    };
    if start == chars.len() {
        return None;
    }
    assert(chars@.skip(0) =~= chars@);
    match read_magnitude(&chars, start) {
        None => None,
        Some(m) => {
            if negative {
                Some((-m) as i32)
            } else if m == MAX_MAGNITUDE {
                None
            } else {
                Some(m as i32)
            }
        },
    }
}

} // verus!
