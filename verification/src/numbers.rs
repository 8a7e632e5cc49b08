//! Reading a whole number from decimal text.

use crate::text::chars_of;
use vstd::prelude::*;

verus! {

/// What a decimal digit is worth; `None` for any other character.
pub open spec fn decimal_digit_value(c: char) -> Option<int> {
    match c {
        '0' => Some(0),
        '1' => Some(1),
        '2' => Some(2),
        '3' => Some(3),
        '4' => Some(4),
        '5' => Some(5),
        '6' => Some(6),
        '7' => Some(7),
        '8' => Some(8),
        '9' => Some(9),
        _ => None,
    }
}

/// Every character is a decimal digit.
pub open spec fn all_decimal(text: Seq<char>) -> bool {
    forall|i: int| 0 <= i < text.len() ==> decimal_digit_value(#[trigger] text[i]) is Some
}

/// The number that decimal digits write. A character that is no digit
/// counts as zero.
pub open spec fn decimal_value(digits: Seq<char>) -> nat
    decreases digits.len(),
{
    if digits.len() == 0 {
        0
    } else {
        let last = match decimal_digit_value(digits.last()) {
            Some(worth) => worth as nat,
            None => 0,
        };
        decimal_value(digits.drop_last()) * 10 + last
    }
}

/// The digits of a text: all of it but a sign at its start.
pub open spec fn unsigned_part(text: Seq<char>) -> Seq<char> {
    if text.len() > 0 && (text[0] == '-' || text[0] == '+') {
        text.skip(1)
    } else {
        text
    }
}

/// The number that a decimal text writes, where it is one that fits 32 bits
/// with a sign: an optional `+` or `-`, then one digit or more, and nothing
/// else.
pub open spec fn decimal_i32(text: Seq<char>) -> Option<i32> {
    let digits = unsigned_part(text);
    let worth = decimal_value(digits) as int;
    let value = if text.len() > 0 && text[0] == '-' {
        -worth
    } else {
        worth
    };
    if digits.len() > 0 && all_decimal(digits) && i32::MIN <= value <= i32::MAX {
        Some(value as i32)
    } else {
        None
    }
}

/// The digits at the start of a text write no more than the whole text.
proof fn lemma_decimal_value_grows(digits: Seq<char>, upto: int)
    requires
        0 <= upto <= digits.len(),
    ensures
        decimal_value(digits.take(upto)) <= decimal_value(digits),
    decreases digits.len() - upto,
{
    if upto == digits.len() {
        assert(digits.take(upto) =~= digits);
    } else {
        lemma_decimal_value_grows(digits.drop_last(), upto);
        assert(digits.drop_last().take(upto) =~= digits.take(upto));
    }
}

fn digit_worth(c: char) -> (worth: Option<u8>)
    ensures
        match decimal_digit_value(c) {
            Some(v) => worth == Some(v as u8) && v < 10,
            None => worth is None,
        },
{
    match c {
        '0' => Some(0),
        '1' => Some(1),
        '2' => Some(2),
        '3' => Some(3),
        '4' => Some(4),
        '5' => Some(5),
        '6' => Some(6),
        '7' => Some(7),
        '8' => Some(8),
        '9' => Some(9),
        _ => None,
    }
}

/// Reads a number of 32 bits with a sign from decimal text; `None` where
/// the text writes none.
pub fn parse_i32(text: &str) -> (number: Option<i32>)
    ensures
        number == decimal_i32(text@),
{
    let chars = chars_of(text);
    let n = chars.len();
    if n == 0 {
        return None;
    }
    let negative = chars[0] == '-';
    let start: usize = if negative || chars[0] == '+' {
        1
    } else {
        0
    };
    let ghost digits = unsigned_part(text@);
    assert(digits =~= chars@.skip(start as int));
    if start == n {
        return None;
    }
    let mut worth: i64 = 0;
    let mut i: usize = start;
    assert(digits.take(0) =~= Seq::empty());
    while i < n
        invariant
            start <= i <= n,
            n == chars.len(),
            chars@ == text@,
            digits == unsigned_part(text@),
            digits == chars@.skip(start as int),
            worth == decimal_value(digits.take(i - start)),
            all_decimal(digits.take(i - start)),
            worth <= 2147483648,
        decreases n - i,
    {
        let ghost before = digits.take(i - start);
        let ghost after = digits.take(i - start + 1);
        proof {
            assert(after.drop_last() =~= before);
            assert(after.last() == chars@[i as int]);
        }
        match digit_worth(chars[i]) {
            Some(digit) => {
                let next = worth * 10 + digit as i64;
                if next > 2147483648 {
                    proof {
                        assert(decimal_value(after) == next);
                        lemma_decimal_value_grows(digits, i - start + 1);
                    }
                    return None;
                }
                worth = next;
                assert forall|k: int| 0 <= k < after.len() implies decimal_digit_value(
                    #[trigger] after[k],
                ) is Some by {
                    if k < i - start {
                        assert(after[k] == before[k]);
                    }
                }
            },
            None => {
                assert(decimal_digit_value(digits[i - start]) is None);
                return None;
            },
        }
        i += 1;
    }
    assert(digits.take(n - start) =~= digits);
    if negative {
        Some((-worth) as i32)
    } else if worth <= 2147483647 {
        Some(worth as i32)
    } else {
        None
    }
}

} // verus!
