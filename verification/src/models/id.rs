//! The identity that every stored record carries, and its written form.

use crate::bindings::identity::fresh_object_id;
use crate::text::chars_of;
use vstd::arithmetic::div_mod::lemma_breakdown;
use vstd::prelude::*;

verus! {

/// The sixteen hexadecimal digits, lower case, by their worth.
pub open spec fn hex_digits() -> Seq<char> {
    seq!['0', '1', '2', '3', '4', '5', '6', '7', '8', '9', 'a', 'b', 'c', 'd', 'e', 'f']
}

/// What a hexadecimal digit is worth, in either case; `None` for any other
/// character.
pub open spec fn hex_digit_value(c: char) -> Option<int> {
    match c {
        '0' => Some(0),
        '1' => Some(1),
        '2' => Some(2),
        '3' => Some(3),
        '4' => Some(4),
        '5' => Some(5),
        '6' => Some(6),
        '7' => Some(7),
        '8' => Some(8),
        '9' => Some(9),
        'a' | 'A' => Some(10),
        'b' | 'B' => Some(11),
        'c' | 'C' => Some(12),
        'd' | 'D' => Some(13),
        'e' | 'E' => Some(14),
        'f' | 'F' => Some(15),
        _ => None,
    }
}

/// 16 to the power of `width`.
pub open spec fn pow16(width: nat) -> nat
    decreases width,
{
    if width == 0 {
        1
    } else {
        16 * pow16((width - 1) as nat)
    }
}

/// The last `width` hexadecimal digits of a number, highest first.
pub open spec fn hex_text(value: nat, width: nat) -> Seq<char>
    decreases width,
{
    if width == 0 {
        Seq::empty()
    } else {
        hex_text(value / 16, (width - 1) as nat).push(hex_digits()[(value % 16) as int])
    }
}

/// The number that hexadecimal digits write, highest first. A character
/// that is no digit counts as zero.
pub open spec fn hex_value(digits: Seq<char>) -> nat
    decreases digits.len(),
{
    if digits.len() == 0 {
        0
    } else {
        let last = match hex_digit_value(digits.last()) {
            Some(worth) => worth as nat,
            None => 0,
        };
        hex_value(digits.drop_last()) * 16 + last
    }
}

/// Every character is a hexadecimal digit.
pub open spec fn all_hex(text: Seq<char>) -> bool {
    forall|i: int| 0 <= i < text.len() ==> hex_digit_value(#[trigger] text[i]) is Some
}

/// How the identity whose twelve bytes, read as one number, are `value` is
/// written: 24 hexadecimal digits, lower case.
pub open spec fn object_id_text(value: u128) -> Seq<char> {
    hex_text(value as nat, 24)
}

/// The identity that a text writes, as the number of its twelve bytes: the
/// text must be 24 hexadecimal digits, of either case.
pub open spec fn object_id_value(text: Seq<char>) -> Option<u128> {
    if text.len() == 24 && all_hex(text) {
        Some(hex_value(text) as u128)
    } else {
        None
    }
}

/// The identity of a stored record: the twelve bytes of an object id, read as
/// one big-endian number.
#[derive(Clone, Copy, Debug, PartialEq, Eq, Structural)]
pub struct EntityId {
    pub value: u128,
}

fn digit_text(worth: u8) -> (digit: &'static str)
    requires
        worth < 16,
    ensures
        digit@ == seq![hex_digits()[worth as int]],
{
    proof {
        reveal_strlit("0");
        reveal_strlit("1");
        reveal_strlit("2");
        reveal_strlit("3");
        reveal_strlit("4");
        reveal_strlit("5");
        reveal_strlit("6");
        reveal_strlit("7");
        reveal_strlit("8");
        reveal_strlit("9");
        reveal_strlit("a");
        reveal_strlit("b");
        reveal_strlit("c");
        reveal_strlit("d");
        reveal_strlit("e");
        reveal_strlit("f");
    }
    let digit = match worth {
        0 => "0",
        1 => "1",
        2 => "2",
        3 => "3",
        4 => "4",
        5 => "5",
        6 => "6",
        7 => "7",
        8 => "8",
        9 => "9",
        10 => "a",
        11 => "b",
        12 => "c",
        13 => "d",
        14 => "e",
        _ => "f",
    };
    assert(digit@ =~= seq![hex_digits()[worth as int]]);
    digit
}

fn push_hex(out: &mut String, value: u128, width: u8)
    ensures
        final(out)@ == old(out)@ + hex_text(value as nat, width as nat),
    decreases width,
{
    if width > 0 {
        push_hex(out, value / 16, width - 1);
        let digit = digit_text((value % 16) as u8);
        out.append(digit);
        assert(out@ =~= old(out)@ + hex_text(value as nat, width as nat));
    } else {
        assert(out@ =~= old(out)@ + hex_text(value as nat, width as nat));
    }
}

fn digit_value(c: char) -> (worth: Option<u8>)
    ensures
        match hex_digit_value(c) {
            Some(v) => worth == Some(v as u8) && v < 16,
            None => worth is None,
        },
{
    match c {
        '0' => Some(0),
        '1' => Some(1),
        '2' => Some(2),
        '3' => Some(3),
        '4' => Some(4),
        '5' => Some(5),
        '6' => Some(6),
        '7' => Some(7),
        '8' => Some(8),
        '9' => Some(9),
        'a' | 'A' => Some(10),
        'b' | 'B' => Some(11),
        'c' | 'C' => Some(12),
        'd' | 'D' => Some(13),
        'e' | 'E' => Some(14),
        'f' | 'F' => Some(15),
        _ => None,
    }
}

/// 16 to the power of 24 is 2 to the power of 96.
proof fn lemma_pow16_of_24()
    ensures
        pow16(24) == 0x1_0000_0000_0000_0000_0000_0000,
{
    reveal_with_fuel(pow16, 25);
}

/// What digits write stays below 16 to the power of their number.
proof fn lemma_hex_value_bound(digits: Seq<char>)
    ensures
        hex_value(digits) < pow16(digits.len()),
    decreases digits.len(),
{
    if digits.len() > 0 {
        lemma_hex_value_bound(digits.drop_last());
    }
}

/// Writing a number in `width` digits and reading the digits gives the
/// number back, as far as it fits the width.
pub proof fn lemma_hex_round_trip(value: nat, width: nat)
    ensures
        hex_text(value, width).len() == width,
        all_hex(hex_text(value, width)),
        hex_value(hex_text(value, width)) == value % pow16(width),
    decreases width,
{
    if width > 0 {
        let before = hex_text(value / 16, (width - 1) as nat);
        let whole = hex_text(value, width);
        lemma_hex_round_trip(value / 16, (width - 1) as nat);
        assert(whole.drop_last() =~= before);
        let digit = hex_digits()[(value % 16) as int];
        assert(whole.last() == digit);
        assert(hex_digit_value(digit) == Some((value % 16) as int));
        assert forall|i: int| 0 <= i < whole.len() implies hex_digit_value(
            #[trigger] whole[i],
        ) is Some by {
            if i < whole.len() - 1 {
                assert(whole[i] == before[i]);
            }
        }
        lemma_pow16_positive((width - 1) as nat);
        lemma_breakdown(value as int, 16, pow16((width - 1) as nat) as int);
    }
}

/// 16 to any power is at least 1.
proof fn lemma_pow16_positive(width: nat)
    ensures
        pow16(width) >= 1,
    decreases width,
{
    if width > 0 {
        lemma_pow16_positive((width - 1) as nat);
    }
}

/// An identity that fits twelve bytes is read back from its written form.
pub proof fn lemma_identity_round_trip(id: EntityId)
    requires
        id.is_valid(),
    ensures
        object_id_value(object_id_text(id.value)) == Some(id.value),
{
    lemma_hex_round_trip(id.value as nat, 24);
    lemma_pow16_of_24();
}

impl EntityId {
    /// The number fits the twelve bytes of an object id.
    pub open spec fn is_valid(self) -> bool {
        self.value < 0x1_0000_0000_0000_0000_0000_0000
    }

    /// A new identity. Which one is up to the generator.
    pub fn fresh() -> (id: EntityId)
        ensures
            id.is_valid(),
    {
        EntityId { value: fresh_object_id() }
    }

    /// The identity in its 24 hexadecimal digits.
    pub fn to_hex(self) -> (text: String)
        ensures
            text@ == object_id_text(self.value),
    {
        let mut text = String::new();
        push_hex(&mut text, self.value, 24);
        assert(text@ =~= object_id_text(self.value));
        text
    }

    /// Reads an identity from its 24 hexadecimal digits; `None` where the text
    /// is not an identity.
    pub fn parse_str(text: &str) -> (id: Option<EntityId>)
        ensures
            id == match object_id_value(text@) {
                Some(value) => Some(EntityId { value }),
                None => None,
            },
            id matches Some(read) ==> read.is_valid(),
    {
        let chars = chars_of(text);
        if chars.len() != 24 {
            return None;
        }
        let mut value: u128 = 0;
        let mut i: usize = 0;
        assert(chars@.take(0) =~= Seq::empty());
        while i < 24
            invariant
                i <= 24,
                chars.len() == 24,
                chars@ == text@,
                value == hex_value(chars@.take(i as int)),
                all_hex(chars@.take(i as int)),
            decreases 24 - i,
        {
            let ghost before = chars@.take(i as int);
            let ghost after = chars@.take(i + 1);
            proof {
                assert(after.drop_last() =~= before);
                assert(after.last() == chars@[i as int]);
                lemma_hex_value_bound(before);
                lemma_hex_value_bound(after);
                lemma_pow16_monotone((i + 1) as nat, 24);
                lemma_pow16_of_24();
            }
            match digit_value(chars[i]) {
                Some(worth) => {
                    value = value * 16 + worth as u128;
                    assert forall|k: int| 0 <= k < after.len() implies hex_digit_value(
                        #[trigger] after[k],
                    ) is Some by {
                        if k < i {
                            assert(after[k] == before[k]);
                        }
                    }
                },
                None => {
                    assert(hex_digit_value(text@[i as int]) is None);
                    return None;
                },
            }
            i += 1;
        }
        proof {
            assert(chars@.take(24) =~= chars@);
            lemma_hex_value_bound(chars@);
            lemma_pow16_of_24();
        }
        Some(EntityId { value })
    }
}

/// 16 to a power grows with the power.
proof fn lemma_pow16_monotone(low: nat, high: nat)
    requires
        low <= high,
    ensures
        pow16(low) <= pow16(high),
    decreases high,
{
    if low < high {
        lemma_pow16_monotone(low, (high - 1) as nat);
    }
}

} // verus!
