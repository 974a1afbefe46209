//! Numbers as text: how a decimal number is read and written.

use vstd::prelude::*;
use vstd::string::StrSliceExecFns;
use crate::text::{join2, join3};

verus! {

/// Whether the character is one of the ten ASCII digits.
pub open spec fn is_digit(c: char) -> bool {
    '0' <= c <= '9'
}

/// Whether the text is made of ASCII digits, at least one.
pub open spec fn all_digits(text: Seq<char>) -> bool {
    text.len() > 0 && forall|i: int| 0 <= i < text.len() ==> is_digit(#[trigger] text[i])
}

/// The number that a row of digits stands for, to base ten.
pub open spec fn digits_value(text: Seq<char>) -> nat
    decreases text.len(),
{
    if text.len() == 0 {
        0
    } else {
        digits_value(text.drop_last()) * 10 + ((text.last() as u32 - '0' as u32) as nat)
    }
}

/// The number that a text stands for: digits, with `+` or `-` before them
/// if one likes. Nothing else is a number: no blank, no underscore, no
/// sign alone.
pub open spec fn signed_decimal(text: Seq<char>) -> Option<int> {
    if text.len() > 0 && text[0] == '-' {
        if all_digits(text.drop_first()) {
            Some(-(digits_value(text.drop_first()) as int))
        } else {
            None
        }
    } else {
        unsigned_decimal(text)
    }
}

/// The number that a text stands for where no negative number is wanted:
/// digits, with `+` before them if one likes.
pub open spec fn unsigned_decimal(text: Seq<char>) -> Option<int> {
    if text.len() > 0 && text[0] == '+' {
        if all_digits(text.drop_first()) {
            Some(digits_value(text.drop_first()) as int)
        } else {
            None
        }
    } else if all_digits(text) {
        Some(digits_value(text) as int)
    } else {
        None
    }
}

/// The `i16` that a text stands for, if it stands for one.
pub open spec fn i16_of_text(text: Seq<char>) -> Option<i16> {
    match signed_decimal(text) {
        Some(value) => if i16::MIN <= value <= i16::MAX {
            Some(value as i16)
        } else {
            None
        },
        None => None,
    }
}

/// The `u8` that a text stands for, if it stands for one.
pub open spec fn u8_of_text(text: Seq<char>) -> Option<u8> {
    match unsigned_decimal(text) {
        Some(value) => if value <= u8::MAX {
            Some(value as u8)
        } else {
            None
        },
        None => None,
    }
}

/// The number that a row of digits stands for, where it is one and is not
/// above `limit`.
pub open spec fn bounded_digits(text: Seq<char>, limit: nat) -> Option<nat> {
    if all_digits(text) && digits_value(text) <= limit {
        Some(digits_value(text))
    } else {
        None
    }
}

/// A row of digits stands for no less than its beginning does.
proof fn lemma_digits_value_grows(text: Seq<char>, shorter: int)
    requires
        0 <= shorter <= text.len(),
        forall|i: int| shorter <= i < text.len() ==> is_digit(#[trigger] text[i]),
    ensures
        digits_value(text.take(shorter)) <= digits_value(text),
    decreases text.len() - shorter,
{
    if shorter < text.len() {
        lemma_digits_value_grows(text.drop_last(), shorter);
        assert(text.drop_last().take(shorter) =~= text.take(shorter));
        assert(is_digit(text.last()));
    } else {
        assert(text.take(shorter) =~= text);
    }
}

/// Reads the digits of `text` from the character at `start` to the end.
fn read_digits(text: &str, start: usize, limit: u32) -> (value: Option<u32>)
    requires
        start <= text@.len(),
        limit <= 1_000_000,
    ensures
        match value {
            Some(number) => bounded_digits(
                text@.subrange(start as int, text@.len() as int),
                limit as nat,
            ) == Some(number as nat),
            None => bounded_digits(text@.subrange(start as int, text@.len() as int), limit as nat)
                is None,
        },
{
    let length = text.unicode_len();
    let ghost digits = text@.subrange(start as int, length as int);
    if start >= length {
        return None;
    }
    let mut number: u32 = 0;
    let mut i: usize = start;
    assert(digits.take(0) =~= Seq::<char>::empty());
    while i < length
        invariant
            start <= i <= length,
            length == text@.len(),
            digits == text@.subrange(start as int, length as int),
            forall|j: int| 0 <= j < i - start ==> is_digit(#[trigger] digits[j]),
            number == digits_value(digits.take(i - start)),
            number <= limit <= 1_000_000,
        decreases length - i,
    {
        let code = text.get_char(i) as u32;
        assert(digits[i - start] == text@[i as int]);
        if code < 48 || code > 57 {
            assert(!is_digit(digits[i - start]));
            return None;
        }
        let longer = number * 10 + (code - 48);
        proof {
            let read = digits.take(i + 1 - start);
            assert(read.drop_last() =~= digits.take(i - start));
            assert(read.last() == digits[i - start]);
            assert(longer == digits_value(read));
        }
        if longer > limit {
            proof {
                if all_digits(digits) {
                    lemma_digits_value_grows(digits, i + 1 - start);
                }
            }
            return None;
        }
        number = longer;
        i += 1;
    }
    assert(digits.take(length - start) =~= digits);
    Some(number)
}

/// Reads an `i16`: digits, with `+` or `-` before them if one likes, that
/// stand for a number which fits.
pub(crate) fn parse_i16(text: &str) -> (parsed: Option<i16>)
    ensures
        parsed == i16_of_text(text@),
{
    let length = text.unicode_len();
    assert(text@ =~= text@.subrange(0, length as int));
    if length > 0 {
        assert(text@.drop_first() =~= text@.subrange(1, length as int));
    }
    if length > 0 && text.get_char(0) == '-' {
        match read_digits(text, 1, 32768) {
            Some(number) => if number == 32768 {
                Some(i16::MIN)
            } else {
                Some(-(number as i16))
            },
            None => None,
        }
    } else {
        let start: usize = if length > 0 && text.get_char(0) == '+' {
            1
        } else {
            0
        };
        match read_digits(text, start, 32767) {
            Some(number) => Some(number as i16),
            None => None,
        }
    }
}

/// Reads a `u8`: digits, with `+` before them if one likes, that stand for
/// a number which fits.
pub(crate) fn parse_u8(text: &str) -> (parsed: Option<u8>)
    ensures
        parsed == u8_of_text(text@),
{
    let length = text.unicode_len();
    assert(text@ =~= text@.subrange(0, length as int));
    let start: usize = if length > 0 && text.get_char(0) == '+' {
        assert(text@.drop_first() =~= text@.subrange(1, length as int));
        1
    } else {
        0
    };
    match read_digits(text, start, 255) {
        Some(number) => Some(number as u8),
        None => None,
    }
}

/// The digit for a number below ten.
pub open spec fn digit_text(digit: nat) -> Seq<char> {
    if digit == 0 {
        "0"@
    } else if digit == 1 {
        "1"@
    } else if digit == 2 {
        "2"@
    } else if digit == 3 {
        "3"@
    } else if digit == 4 {
        "4"@
    } else if digit == 5 {
        "5"@
    } else if digit == 6 {
        "6"@
    } else if digit == 7 {
        "7"@
    } else if digit == 8 {
        "8"@
    } else {
        "9"@
    }
}

/// A number below a thousand in decimal digits, without leading zeros.
pub open spec fn decimal_text(number: nat) -> Seq<char> {
    if number < 10 {
        digit_text(number)
    } else if number < 100 {
        digit_text(number / 10) + digit_text(number % 10)
    } else {
        digit_text(number / 100) + digit_text(number / 10 % 10) + digit_text(number % 10)
    }
}

/// The digit for a number below ten.
fn digit(value: u8) -> (text: &'static str)
    requires
        value < 10,
    ensures
        text@ == digit_text(value as nat),
{
    match value {
        0 => "0",
        1 => "1",
        2 => "2",
        3 => "3",
        4 => "4",
        5 => "5",
        6 => "6",
        7 => "7",
        8 => "8",
        _ => "9",
    }
}

/// Writes a number in decimal digits, without leading zeros.
pub fn decimal(number: u8) -> (text: String)
    ensures
        text@ == decimal_text(number as nat),
{
    if number < 10 {
        digit(number).to_owned()
    } else if number < 100 {
        join2(digit(number / 10), digit(number % 10))
    } else {
        join3(digit(number / 100), digit(number / 10 % 10), digit(number % 10))
    }
}

/// What has been written in decimal digits is read back as the same
/// number.
pub proof fn lemma_decimal_is_read_back(number: u8)
    ensures
        u8_of_text(decimal_text(number as nat)) == Some(number),
        i16_of_text(decimal_text(number as nat)) == Some(number as i16),
{
    reveal_strlit("0");
    reveal_strlit("1");
    reveal_strlit("2");
    reveal_strlit("3");
    reveal_strlit("4");
    reveal_strlit("5");
    reveal_strlit("6");
    reveal_strlit("7");
    reveal_strlit("8");
    reveal_strlit("9");
    let text = decimal_text(number as nat);
    let n = number as nat;
    assert forall|d: nat| d < 10 implies {
        &&& (#[trigger] digit_text(d)).len() == 1
        &&& is_digit(digit_text(d)[0])
        &&& (digit_text(d)[0] as u32 - '0' as u32) as nat == d
    } by {}
    reveal_with_fuel(digits_value, 4);
    if n < 10 {
        assert(text.drop_last() =~= Seq::<char>::empty());
    } else if n < 100 {
        let high = digit_text(n / 10);
        assert(text.len() == 2);
        assert(text.drop_last() =~= high);
        assert(high.drop_last() =~= Seq::<char>::empty());
        assert(text.last() == digit_text(n % 10)[0]);
        assert(digits_value(text) == n);
    } else {
        let high = digit_text(n / 100);
        let mid = digit_text(n / 10 % 10);
        assert(text.len() == 3);
        assert(text.drop_last() =~= high + mid);
        assert((high + mid).drop_last() =~= high);
        assert(high.drop_last() =~= Seq::<char>::empty());
        assert(text.last() == digit_text(n % 10)[0]);
        assert((high + mid).last() == mid[0]);
        assert(digits_value(high + mid) == n / 10);
        assert(digits_value(text) == n);
    }
    assert(all_digits(text));
    assert(text[0] != '+' && text[0] != '-');
}

} // verus!
