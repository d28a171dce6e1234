//! Reading whole numbers from text: an optional sign, then decimal digits.

use crate::text::to_chars;
use vstd::prelude::*;

verus! {

/// Every character is one of `0` to `9`.
pub open spec fn all_digits(s: Seq<char>) -> bool {
    forall|i: int| 0 <= i < s.len() ==> 0x30 <= (#[trigger] s[i]) as u32 <= 0x39
}

/// The number that a run of digits spells.
pub open spec fn digits_value(s: Seq<char>) -> nat
    decreases s.len(),
{
    if s.len() == 0 {
        0
    } else {
        digits_value(s.drop_last()) * 10 + (s.last() as u32 - 0x30) as nat
    }
}

/// The whole number that `s` spells: at least one digit, after a plus sign
/// if there is one, or after a minus sign where `signed` allows one.
/// Anything else spells no number.
pub open spec fn integer_of(s: Seq<char>, signed: bool) -> Option<int> {
    let negative = signed && s.len() > 0 && s[0] == '-';
    let digits = if s.len() > 0 && (s[0] == '+' || negative) {
        s.drop_first()
    } else {
        s
    };
    if digits.len() > 0 && all_digits(digits) {
        if negative {
            Some(-(digits_value(digits) as int))
        } else {
            Some(digits_value(digits) as int)
        }
    } else {
        None
    }
}

/// The whole number that `s` spells, where it lies from `min` to `max`.
pub open spec fn integer_within(s: Seq<char>, signed: bool, min: int, max: int) -> Option<int> {
    match integer_of(s, signed) {
        Some(n) => if min <= n <= max {
            Some(n)
        } else {
            None
        },
        None => None,
    }
}

/// A run of digits spells at least what any of its beginnings spells.
proof fn lemma_digits_grow(s: Seq<char>, k: int)
    requires
        0 <= k <= s.len(),
        all_digits(s),
    ensures
        digits_value(s.take(k)) <= digits_value(s),
    decreases s.len() - k,
{
    if k < s.len() {
        lemma_digits_grow(s, k + 1);
        assert(s.take(k + 1).drop_last() =~= s.take(k));
    } else {
        assert(s.take(k) =~= s);
    }
}

/// The number that the digits `chars[from..]` spell, where there is at
/// least one, all are digits, and the number is at most `limit`.
fn magnitude(chars: &Vec<char>, from: usize, limit: u128) -> (number: Option<u128>)
    requires
        from <= chars.len(),
    ensures
        ({
            let digits = chars@.subrange(from as int, chars.len() as int);
            match number {
                Some(n) => digits.len() > 0 && all_digits(digits) && digits_value(digits) == n
                    && n <= limit,
                None => !(digits.len() > 0 && all_digits(digits) && digits_value(digits)
                    <= limit),
            }
        }),
{
    let ghost digits = chars@.subrange(from as int, chars.len() as int);
    if from == chars.len() {
        return None;
    }
    let mut value: u128 = 0;
    let mut i: usize = from;
    assert(digits.take(0) =~= Seq::<char>::empty());
    while i < chars.len()
        invariant
            from <= i <= chars.len(),
            digits == chars@.subrange(from as int, chars.len() as int),
            all_digits(digits.take(i - from)),
            value == digits_value(digits.take(i - from)),
            value <= limit,
        decreases chars.len() - i,
    {
        let c = chars[i];
        let code: u32 = c as u32;
        assert(digits[i - from] == c);
        if code < 0x30 || code > 0x39 {
            return None;
        }
        let d: u128 = (code - 0x30) as u128;
        proof {
            assert(digits.take(i - from + 1).drop_last() =~= digits.take(i - from));
            assert(digits.take(i - from + 1).last() == c);
            assert(all_digits(digits.take(i - from + 1))) by {
                assert forall|j: int| 0 <= j < i - from + 1 implies 0x30 <= (
                #[trigger] digits.take(i - from + 1)[j]) as u32 <= 0x39 by {
                    if j < i - from {
                        assert(digits.take(i - from)[j] == digits.take(i - from + 1)[j]);
                    }
                }
            }
        }
        if limit < d || value > (limit - d) / 10 {
            proof {
                if all_digits(digits) {
                    lemma_digits_grow(digits, i - from + 1);
                }
            }
            return None;
        }
        value = value * 10 + d;
        i += 1;
    }
    assert(digits.take(i - from) =~= digits);
    Some(value)
}

/// Reads an unsigned number of at most `max`.
pub fn parse_unsigned(text: &str, max: u128) -> (number: Option<u128>)
    ensures
        match number {
            Some(n) => integer_within(text@, false, 0, max as int) == Some(n as int),
            None => integer_within(text@, false, 0, max as int) is None,
        },
{
    let chars = to_chars(text);
    let from: usize = if chars.len() > 0 && chars[0] == '+' {
        1
    } else {
        0
    };
    proof {
        if from == 1 {
            assert(chars@.subrange(1, chars.len() as int) =~= chars@.drop_first());
        } else {
            assert(chars@.subrange(0, chars.len() as int) =~= chars@);
        }
    }
    magnitude(&chars, from, max)
}

/// Reads a signed number from `min` to `max`. Where `max` is below `min`
/// no number lies between them, and nothing is read.
pub fn parse_signed(text: &str, min: i128, max: i128) -> (number: Option<i128>)
    ensures
        match number {
            Some(n) => integer_within(text@, true, min as int, max as int) == Some(n as int),
            None => integer_within(text@, true, min as int, max as int) is None,
        },
{
    let chars = to_chars(text);
    let negative = chars.len() > 0 && chars[0] == '-';
    let from: usize = if chars.len() > 0 && (chars[0] == '+' || negative) {
        1
    } else {
        0
    };
    proof {
        if from == 1 {
            assert(chars@.subrange(1, chars.len() as int) =~= chars@.drop_first());
        } else {
            assert(chars@.subrange(0, chars.len() as int) =~= chars@);
        }
    }
    // The number itself, where it fits 128 signed bits at all.
    let read: Option<i128> = if negative {
        match magnitude(&chars, from, 0x8000_0000_0000_0000_0000_0000_0000_0000) {
            Some(n) => if n == 0x8000_0000_0000_0000_0000_0000_0000_0000 {
                Some(i128::MIN)
            } else {
                Some(-(n as i128))
            },
            None => None,
        }
    } else {
        match magnitude(&chars, from, 0x7fff_ffff_ffff_ffff_ffff_ffff_ffff_ffff) {
            Some(n) => Some(n as i128),
            None => None,
        }
    };
    match read {
        Some(n) => if min <= n && n <= max {
            Some(n)
        } else {
            None
        },
        None => None,
    }
}

} // verus!
