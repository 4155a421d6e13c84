//! Unsigned numbers as decimal text, the form in which HTTP headers carry
//! byte counts and offsets.

use vstd::prelude::*;
use vstd::string::StringExecFns;
use vstd::utf8::{encode_utf8, is_ascii_chars, is_ascii_chars_encode_utf8};

verus! {

/// Whether a byte is an ASCII decimal digit.
pub open spec fn is_digit(byte: u8) -> bool {
    0x30 <= byte <= 0x39
}

/// Whether every byte of a text is an ASCII decimal digit.
pub open spec fn all_digits(text: Seq<u8>) -> bool {
    forall|i: int| 0 <= i < text.len() ==> is_digit(#[trigger] text[i])
}

/// The number that a string of decimal digits denotes.
pub open spec fn digits_value(digits: Seq<u8>) -> nat
    decreases digits.len(),
{
    if digits.len() == 0 {
        0
    } else {
        10 * digits_value(digits.drop_last()) + (digits.last() - 0x30) as nat
    }
}

/// The digits of a number's text: all of it but for one leading `+`.
pub open spec fn unsigned_part(text: Seq<u8>) -> Seq<u8> {
    if text.len() > 0 && text[0] == 0x2b {
        text.skip(1)
    } else {
        text
    }
}

/// The number that a text denotes: an optional `+` sign and then one or more
/// decimal digits, with a value that fits in 64 bits.
/// Any other text denotes none.
pub open spec fn parsed_u64(text: Seq<u8>) -> Option<u64> {
    let digits = unsigned_part(text);
    if digits.len() > 0 && all_digits(digits) && digits_value(digits) <= u64::MAX {
        Some(digits_value(digits) as u64)
    } else {
        None
    }
}

/// The character of a single decimal digit.
pub open spec fn digit_char(digit: nat) -> char {
    (0x30 + digit) as char
}

/// A number in decimal notation, without leading zeros.
pub open spec fn decimal_text(number: nat) -> Seq<char>
    decreases number,
{
    if number < 10 {
        seq![digit_char(number)]
    } else {
        decimal_text(number / 10).push(digit_char(number % 10))
    }
}

/// A longer string of digits denotes a number at least as large.
proof fn lemma_digits_value_grows(digits: Seq<u8>, len: int)
    requires
        0 <= len <= digits.len(),
        all_digits(digits),
    ensures
        digits_value(digits.take(len)) <= digits_value(digits),
    decreases digits.len() - len,
{
    if len == digits.len() {
        assert(digits.take(len) =~= digits);
    } else {
        let longer = digits.take(len + 1);
        assert(longer.drop_last() =~= digits.take(len));
        assert(is_digit(digits[len]));
        lemma_digits_value_grows(digits, len + 1);
    }
}

/// Read a number from its decimal text.
pub fn parse_u64(text: &[u8]) -> (number: Option<u64>)
    ensures
        number == parsed_u64(text@),
{
    let len: usize = text.len();
    let start: usize = if len > 0 && text[0] == 0x2b {
        1
    } else {
        0
    };
    if start == len {
        return None;
    }
    let ghost digits = unsigned_part(text@);
    assert(digits =~= text@.skip(start as int));
    let mut value: u64 = 0;
    let mut i: usize = start;
    while i < len
        invariant
            len == text@.len(),
            start <= i <= len,
            digits == unsigned_part(text@),
            digits == text@.skip(start as int),
            digits.len() > 0,
            all_digits(digits.take(i - start)),
            value == digits_value(digits.take(i - start)),
        decreases len - i,
    {
        let byte: u8 = text[i];
        let ghost longer = digits.take(i - start + 1);
        proof {
            assert(digits[i - start] == byte);
            assert(longer.drop_last() =~= digits.take(i - start));
            assert(longer.last() == byte);
            if all_digits(digits) {
                lemma_digits_value_grows(digits, i - start + 1);
            }
        }
        if byte < 0x30 || byte > 0x39 {
            assert(!is_digit(digits[i - start]));
            return None;
        }
        let shifted: u64 = match value.checked_mul(10) {
            Some(shifted) => shifted,
            None => return None,
        };
        value = match shifted.checked_add((byte - 0x30) as u64) {
            Some(sum) => sum,
            None => return None,
        };
        assert forall|k: int| 0 <= k < longer.len() implies is_digit(#[trigger] longer[k]) by {
            if k < i - start {
                assert(digits.take(i - start)[k] == longer[k]);
            }
        }
        i += 1;
    }
    assert(digits.take(len - start) =~= digits);
    Some(value)
}

/// The text of a single decimal digit.
fn digit_text(digit: u64) -> (text: &'static str)
    requires
        digit < 10,
    ensures
        text@ == seq![digit_char(digit as nat)],
{
    proof {
        reveal_strlit("0");
        reveal_strlit("1");
        reveal_strlit("2");
        reveal_strlit("3");
        reveal_strlit("4");
        reveal_strlit("5");
        reveal_strlit("6");
        reveal_strlit("7");
        reveal_strlit("8");
        reveal_strlit("9");
    }
    match digit {
        0 => "0",
        1 => "1",
        2 => "2",
        3 => "3",
        4 => "4",
        5 => "5",
        6 => "6",
        7 => "7",
        8 => "8",
        _ => "9",
    }
}

/// Write a number in decimal notation.
pub fn format_u64(number: u64) -> (text: String)
    ensures
        text@ == decimal_text(number as nat),
    decreases number,
{
    if number < 10 {
        String::from_str(digit_text(number))
    } else {
        let mut text = format_u64(number / 10);
        text.append(digit_text(number % 10));
        assert(text@ =~= decimal_text(number as nat));
        text
    }
}

/// Decimal text is ASCII, and its bytes are the digits of the number.
pub proof fn lemma_decimal_text_digits(number: nat)
    ensures
        decimal_text(number).len() > 0,
        is_ascii_chars(decimal_text(number)),
        all_digits(encode_utf8(decimal_text(number))),
        digits_value(encode_utf8(decimal_text(number))) == number,
    decreases number,
{
    let text = decimal_text(number);
    let bytes = encode_utf8(text);
    if number < 10 {
        is_ascii_chars_encode_utf8(text);
        reveal_with_fuel(digits_value, 2);
        assert(text[0] as u8 == bytes[0]);
    } else {
        let head = decimal_text(number / 10);
        lemma_decimal_text_digits(number / 10);
        is_ascii_chars_encode_utf8(head);
        is_ascii_chars_encode_utf8(text);
        assert forall|i: int| 0 <= i < head.len() implies bytes[i] == encode_utf8(head)[i] by {
            assert(text[i] == head[i]);
        }
        assert(bytes.drop_last() =~= encode_utf8(head));
        assert(text[text.len() - 1] as u8 == bytes[bytes.len() - 1]);
        assert forall|i: int| 0 <= i < bytes.len() implies is_digit(#[trigger] bytes[i]) by {
            if i < head.len() {
                assert(is_digit(encode_utf8(head)[i]));
            }
        }
    }
}

/// Decimal text is written with the digits `0` to `9`, and starts with `0` only
/// where the number is zero.
pub proof fn law_decimal_text_is_plain(number: nat)
    ensures
        decimal_text(number).len() > 0,
        forall|i: int|
            0 <= i < decimal_text(number).len() ==> 0x30 <= (#[trigger] decimal_text(
                number,
            )[i]) as int <= 0x39,
        number > 0 ==> decimal_text(number)[0] != '0',
        number == 0 ==> decimal_text(number) == seq!['0'],
    decreases number,
{
    if number >= 10 {
        law_decimal_text_is_plain(number / 10);
        let head = decimal_text(number / 10);
        assert forall|i: int| 0 <= i < decimal_text(number).len() implies 0x30 <= (
        #[trigger] decimal_text(number)[i]) as int <= 0x39 by {
            if i < head.len() {
                assert(decimal_text(number)[i] == head[i]);
            }
        }
        assert(decimal_text(number)[0] == head[0]);
    }
}

/// The shortest texts: no digits denote no number, and a digit denotes itself.
pub proof fn law_single_digit_denotes_itself(byte: u8)
    ensures
        parsed_u64(Seq::empty()) is None,
        parsed_u64(seq![byte]) == if 0x30 <= byte <= 0x39 {
            Some((byte - 0x30) as u64)
        } else {
            None
        },
{
    reveal_with_fuel(digits_value, 2);
    let text = seq![byte];
    if is_digit(byte) {
        assert(text.drop_last() =~= Seq::empty());
        assert(all_digits(text));
    } else if byte != 0x2b {
        assert(!is_digit(text[0]));
    }
}

/// A digit behind a number shifts it by one decimal place, unless the result
/// does not fit in 64 bits. Anything else behind a number spoils it, and a text
/// that denotes no number is not mended by what is put behind it.
pub proof fn law_digit_shifts_number(text: Seq<u8>, byte: u8)
    requires
        text.len() > 0,
        text != seq![0x2bu8],
    ensures
        !(0x30 <= byte <= 0x39) || parsed_u64(text) is None ==> parsed_u64(text.push(byte)) is None,
        parsed_u64(text) matches Some(number) ==> 0x30 <= byte <= 0x39 ==> {
            let shifted = 10 * number + (byte - 0x30);
            parsed_u64(text.push(byte)) == if shifted <= u64::MAX {
                Some(shifted as u64)
            } else {
                None
            }
        },
{
    let longer = text.push(byte);
    let digits = unsigned_part(text);
    let more = unsigned_part(longer);
    assert(longer[0] == text[0]);
    assert(more =~= digits.push(byte));
    assert(more.drop_last() =~= digits);
    assert(text.len() == 1 && text[0] == 0x2b ==> text =~= seq![0x2bu8]);
    assert(is_digit(more[digits.len() as int]) == is_digit(byte));
    if all_digits(more) {
        assert forall|i: int| 0 <= i < digits.len() implies is_digit(#[trigger] digits[i]) by {
            assert(more[i] == digits[i]);
        }
    }
}

/// One leading `+` makes no difference, and there cannot be two of them.
pub proof fn law_plus_sign_is_ignored(text: Seq<u8>)
    ensures
        parsed_u64(seq![0x2bu8] + text) == if text.len() > 0 && text[0] == 0x2b {
            None
        } else {
            parsed_u64(text)
        },
{
    let signed = seq![0x2bu8] + text;
    assert(signed[0] == 0x2b);
    assert(signed.skip(1) =~= text);
    if text.len() > 0 && text[0] == 0x2b {
        assert(!is_digit(text[0]));
    }
}

/// Reading back what was written gives the number itself: for every 64-bit
/// number, the decimal text of it denotes it.
pub proof fn law_decimal_round_trip(number: u64)
    ensures
        parsed_u64(encode_utf8(decimal_text(number as nat))) == Some(number),
{
    lemma_decimal_text_digits(number as nat);
    let bytes = encode_utf8(decimal_text(number as nat));
    is_ascii_chars_encode_utf8(decimal_text(number as nat));
    assert(is_digit(bytes[0]));
    assert(unsigned_part(bytes) == bytes);
}

} // verus!
