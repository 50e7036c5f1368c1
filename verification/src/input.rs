//! What the operator types in answer to a prompt: amounts and logical times.
//!
//! An amount is money in hundredths. It is typed as a decimal: digits, and
//! optionally a point and one or two more digits.

use vstd::prelude::*;
use vstd::string::*;
use crate::text::{trim, trimmed};

verus! {

/// What the operator answered: the line without the white space around it.
pub fn answer(line: &str) -> (text: String)
    ensures
        text@ == trimmed(line@),
{
    String::from_str(trim(line))
}

/// The value of a decimal digit, and nothing for any other character.
pub open spec fn digit_of(c: char) -> Option<nat> {
    if c == '0' {
        Some(0)
    } else if c == '1' {
        Some(1)
    } else if c == '2' {
        Some(2)
    } else if c == '3' {
        Some(3)
    } else if c == '4' {
        Some(4)
    } else if c == '5' {
        Some(5)
    } else if c == '6' {
        Some(6)
    } else if c == '7' {
        Some(7)
    } else if c == '8' {
        Some(8)
    } else if c == '9' {
        Some(9)
    } else {
        None
    }
}

/// The number that `s` spells in decimal digits, and nothing where `s` is
/// empty or holds anything but digits.
pub open spec fn number_of(s: Seq<char>) -> Option<nat>
    decreases s.len(),
{
    if s.len() == 0 {
        None
    } else {
        match digit_of(s.last()) {
            None => None,
            Some(d) => if s.len() == 1 {
                Some(d)
            } else {
                match number_of(s.drop_last()) {
                    None => None,
                    Some(n) => Some(10 * n + d),
                }
            },
        }
    }
}

/// The integer that `s` spells: digits, with a plus or a minus sign before
/// them or none.
pub open spec fn integer_of(s: Seq<char>) -> Option<int> {
    if s.len() > 0 && s[0] == '-' {
        match number_of(s.skip(1)) {
            Some(n) => Some(-(n as int)),
            None => None,
        }
    } else if s.len() > 0 && s[0] == '+' {
        match number_of(s.skip(1)) {
            Some(n) => Some(n as int),
            None => None,
        }
    } else {
        match number_of(s) {
            Some(n) => Some(n as int),
            None => None,
        }
    }
}

/// Whether the first point of `s` stands at `k`.
pub open spec fn is_first_point(s: Seq<char>, k: int) -> bool {
    &&& 0 <= k < s.len()
    &&& s[k] == '.'
    &&& forall|j: int| 0 <= j < k ==> #[trigger] s[j] != '.'
}

/// The hundredths that the digits `whole` before the point and the one or two
/// digits `fraction` after it spell.
pub open spec fn hundredths_of(whole: Seq<char>, fraction: Seq<char>) -> Option<nat> {
    match (number_of(whole), number_of(fraction)) {
        (Some(w), Some(f)) => if fraction.len() == 1 {
            Some(100 * w + 10 * f)
        } else if fraction.len() == 2 {
            Some(100 * w + f)
        } else {
            None
        },
        _ => None,
    }
}

/// The amount, in hundredths, that `s` spells as a decimal.
pub open spec fn amount_of(s: Seq<char>) -> Option<nat> {
    if exists|k: int| is_first_point(s, k) {
        let k = choose|k: int| is_first_point(s, k);
        hundredths_of(s.take(k), s.skip(k + 1))
    } else {
        match number_of(s) {
            Some(w) => Some(100 * w),
            None => None,
        }
    }
}

/// A number that digits spell is at least the number that any of its
/// beginnings spells.
proof fn lemma_number_grows(s: Seq<char>, len: int)
    requires
        0 < len <= s.len(),
        number_of(s) is Some,
    ensures
        number_of(s.take(len)) is Some,
        number_of(s.take(len))->0 <= number_of(s)->0,
    decreases s.len(),
{
    if len == s.len() {
        assert(s.take(len) =~= s);
    } else {
        assert(s.drop_last().take(len) =~= s.take(len));
        lemma_number_grows(s.drop_last(), len);
    }
}

/// One or two digits spell a number below a hundred.
proof fn lemma_two_digits(s: Seq<char>)
    requires
        s.len() <= 2,
        number_of(s) is Some,
    ensures
        number_of(s)->0 <= 99,
{
    if s.len() == 2 {
        assert(s.drop_last().len() == 1);
        assert(number_of(s.drop_last()) is Some);
    }
}

fn digit(c: char) -> (d: Option<u64>)
    ensures
        match d {
            Some(v) => digit_of(c) == Some(v as nat),
            None => digit_of(c) is None,
        },
{
    if c == '0' {
        Some(0)
    } else if c == '1' {
        Some(1)
    } else if c == '2' {
        Some(2)
    } else if c == '3' {
        Some(3)
    } else if c == '4' {
        Some(4)
    } else if c == '5' {
        Some(5)
    } else if c == '6' {
        Some(6)
    } else if c == '7' {
        Some(7)
    } else if c == '8' {
        Some(8)
    } else if c == '9' {
        Some(9)
    } else {
        None
    }
}

/// The number that the characters of `text` from `from` up to `to` spell, if
/// they spell one that is at most `limit`.
fn parse_number(text: &str, from: usize, to: usize, limit: u64) -> (r: Option<u64>)
    requires
        from <= to <= text@.len(),
    ensures
        match number_of(text@.subrange(from as int, to as int)) {
            Some(n) => if n <= limit {
                r == Some(n as u64)
            } else {
                r is None
            },
            None => r is None,
        },
{
    let ghost digits = text@.subrange(from as int, to as int);
    if from == to {
        return None;
    }
    let mut acc: u64 = 0;
    let mut i: usize = from;
    while i < to
        invariant
            from <= i <= to <= text@.len(),
            digits == text@.subrange(from as int, to as int),
            acc <= limit,
            i == from ==> acc == 0,
            i > from ==> number_of(digits.take(i - from)) == Some(acc as nat),
        decreases to - i,
    {
        let c = text.get_char(i);
        let ghost seen = digits.take(i - from);
        let ghost next = digits.take(i - from + 1);
        proof {
            assert(next.last() == c);
            assert(next.drop_last() =~= seen);
            if number_of(digits) is Some {
                lemma_number_grows(digits, i - from + 1);
            }
        }
        match digit(c) {
            None => {
                return None;
            },
            Some(d) => {
                assert(number_of(next) == Some((10 * acc + d) as nat));
                let tens = match acc.checked_mul(10) {
                    Some(tens) => tens,
                    None => {
                        return None;
                    },
                };
                let sum = match tens.checked_add(d) {
                    Some(sum) => sum,
                    None => {
                        return None;
                    },
                };
                if sum > limit {
                    return None;
                }
                acc = sum;
            },
        }
        i = i + 1;
    }
    assert(digits.take(to - from) =~= digits);
    Some(acc)
}

/// Reads an integer: digits with a plus or a minus sign before them or none.
/// Nothing comes back for any other text, nor for a number that 64 bits cannot
/// hold.
pub fn parse_integer(text: &str) -> (r: Option<i64>)
    ensures
        match integer_of(text@) {
            Some(v) => if i64::MIN <= v <= i64::MAX {
                r == Some(v as i64)
            } else {
                r is None
            },
            None => r is None,
        },
{
    let len = text.unicode_len();
    if len == 0 {
        return None;
    }
    let first = text.get_char(0);
    assert(text@.skip(1) =~= text@.subrange(1, len as int));
    assert(text@ =~= text@.subrange(0, len as int));
    if first == '-' {
        match parse_number(text, 1, len, 9223372036854775808) {
            Some(magnitude) => if magnitude == 9223372036854775808 {
                Some(i64::MIN)
            } else {
                Some(-(magnitude as i64))
            },
            None => None,
        }
    } else if first == '+' {
        match parse_number(text, 1, len, 9223372036854775807) {
            Some(value) => Some(value as i64),
            None => None,
        }
    } else {
        match parse_number(text, 0, len, 9223372036854775807) {
            Some(value) => Some(value as i64),
            None => None,
        }
    }
}

/// Reads an amount of money: digits, and optionally a point and one or two
/// more digits. The amount comes back in hundredths. Nothing comes back for
/// any other text, for an amount of zero, nor for one that 64 bits cannot
/// hold.
pub fn parse_amount(text: &str) -> (r: Option<i64>)
    ensures
        match amount_of(text@) {
            Some(v) => if 0 < v <= i64::MAX {
                r == Some(v as i64)
            } else {
                r is None
            },
            None => r is None,
        },
{
    let len = text.unicode_len();
    let mut point: usize = 0;
    while point < len && text.get_char(point) != '.'
        invariant
            point <= len,
            len == text@.len(),
            forall|j: int| 0 <= j < point ==> #[trigger] text@[j] != '.',
        decreases len - point,
    {
        point = point + 1;
    }
    let hundredths: u64 = if point == len {
        assert(text@ =~= text@.subrange(0, len as int));
        assert(!exists|k: int| is_first_point(text@, k));
        match parse_number(text, 0, len, 92233720368547758) {
            Some(whole) => whole * 100,
            None => {
                return None;
            },
        }
    } else {
        assert(is_first_point(text@, point as int));
        let ghost k = choose|k: int| is_first_point(text@, k);
        assert(k == point);
        assert(text@.take(point as int) =~= text@.subrange(0, point as int));
        assert(text@.skip(point + 1) =~= text@.subrange(point + 1, len as int));
        let places = len - point - 1;
        if places != 1 && places != 2 {
            return None;
        }
        proof {
            if number_of(text@.subrange(point + 1, len as int)) is Some {
                lemma_two_digits(text@.subrange(point + 1, len as int));
            }
        }
        let fraction = match parse_number(text, point + 1, len, 99) {
            Some(fraction) => fraction,
            None => {
                return None;
            },
        };
        let whole = match parse_number(text, 0, point, 92233720368547758) {
            Some(whole) => whole,
            None => {
                return None;
            },
        };
        if places == 1 {
            whole * 100 + fraction * 10
        } else {
            whole * 100 + fraction
        }
    };
    if hundredths == 0 || hundredths > 9223372036854775807 {
        None
    } else {
        Some(hundredths as i64)
    }
}

} // verus!
