//! Numerals of the source text, and two small helpers on bytes.

use crate::error::{outcome, AsmError, AsmErrorView};
use vstd::prelude::*;

verus! {

/// The value of `c` as a digit in `radix`: `0` to `9`, then the letters in either
/// case for ten and above.
pub open spec fn digit_value(c: char, radix: nat) -> Option<nat> {
    let code = c as u32;
    let value: int = if '0' as u32 <= code <= '9' as u32 {
        code - '0' as u32
    } else if 'a' as u32 <= code <= 'z' as u32 {
        code - 'a' as u32 + 10
    } else if 'A' as u32 <= code <= 'Z' as u32 {
        code - 'A' as u32 + 10
    } else {
        36
    };
    if value < radix {
        Some(value as nat)
    } else {
        None
    }
}

/// The number that a string of digits writes, the most significant digit first;
/// `None` where a character is no digit of `radix`.
pub open spec fn digits_value(digits: Seq<char>, radix: nat) -> Option<nat>
    decreases digits.len(),
{
    if digits.len() == 0 {
        Some(0)
    } else {
        match (digits_value(digits.drop_last(), radix), digit_value(digits.last(), radix)) {
            (Some(high), Some(low)) => Some(high * radix + low),
            _ => None,
        }
    }
}

/// The number that `text` writes: an optional `+`, then one digit or more.
pub open spec fn numeral_value(text: Seq<char>, radix: nat) -> Option<nat> {
    let digits = if text.len() > 0 && text[0] == '+' {
        text.subrange(1, text.len() as int)
    } else {
        text
    };
    if digits.len() == 0 {
        None
    } else {
        digits_value(digits, radix)
    }
}

/// The numeral `text` as a byte; `None` where it is no numeral or exceeds 255.
pub open spec fn parse_u8(text: Seq<char>, radix: nat) -> Option<u8> {
    match numeral_value(text, radix) {
        Some(value) => if value <= u8::MAX {
            Some(value as u8)
        } else {
            None
        },
        None => None,
    }
}

/// The numeral `text` as a 16-bit number; `None` where it is no numeral or
/// exceeds 65535.
pub open spec fn parse_u16(text: Seq<char>, radix: nat) -> Option<u16> {
    match numeral_value(text, radix) {
        Some(value) => if value <= u16::MAX {
            Some(value as u16)
        } else {
            None
        },
        None => None,
    }
}

/// The byte that exactly two hexadecimal digits write.
pub open spec fn hex_pair(text: Seq<char>) -> Option<u8> {
    if text.len() == 2 {
        match (digit_value(text[0], 16), digit_value(text[1], 16)) {
            (Some(high), Some(low)) => Some((high * 16 + low) as u8),
            _ => None,
        }
    } else {
        None
    }
}

/// A numeral is at least as large as what any prefix of its digits writes.
proof fn lemma_digits_prefix(digits: Seq<char>, k: int, radix: nat)
    requires
        0 <= k <= digits.len(),
        radix >= 1,
    ensures
        digits_value(digits, radix) matches Some(value) ==> (digits_value(digits.take(k), radix)
            matches Some(prefix) && prefix <= value),
    decreases digits.len() - k,
{
    if k == digits.len() {
        assert(digits.take(k) =~= digits);
    } else {
        assert(digits.drop_last().take(k) =~= digits.take(k));
        lemma_digits_prefix(digits.drop_last(), k, radix);
        if let Some(high) = digits_value(digits.drop_last(), radix) {
            assert(high * radix >= high) by (nonlinear_arith)
                requires
                    radix >= 1,
                    high >= 0,
            ;
        }
    }
}

fn digit_of(c: char, radix: u32) -> (digit: Option<u32>)
    requires
        radix <= 36,
    ensures
        digit matches Some(d) ==> d < radix,
        match digit_value(c, radix as nat) {
            Some(value) => digit == Some(value as u32),
            None => digit is None,
        },
{
    let code = c as u32;
    let value: u32 = if '0' as u32 <= code && code <= '9' as u32 {
        code - '0' as u32
    } else if 'a' as u32 <= code && code <= 'z' as u32 {
        code - 'a' as u32 + 10
    } else if 'A' as u32 <= code && code <= 'Z' as u32 {
        code - 'A' as u32 + 10
    } else {
        36
    };
    if value < radix {
        Some(value)
    } else {
        None
    }
}

/// Reads `text` as a numeral in `radix`, up to `limit`.
fn parse_numeral(text: &str, radix: u32, limit: u32) -> (number: Option<u32>)
    requires
        1 <= radix <= 36,
        limit <= u16::MAX,
    ensures
        number == match numeral_value(text@, radix as nat) {
            Some(value) => if value <= limit {
                Some(value as u32)
            } else {
                None
            },
            None => None,
        },
{
    let n = text.unicode_len();
    let start: usize = if n > 0 && text.get_char(0) == '+' {
        1
    } else {
        0
    };
    if start == n {
        return None;
    }
    let ghost digits = text@.subrange(start as int, n as int);
    proof {
        if start == 0 {
            assert(digits =~= text@);
        }
        assert(digits.take(0) =~= Seq::<char>::empty());
    }
    let mut acc: u32 = 0;
    let mut i: usize = start;
    while i < n
        invariant
            start <= i <= n,
            n == text@.len(),
            1 <= radix <= 36,
            limit <= u16::MAX,
            digits == text@.subrange(start as int, n as int),
            numeral_value(text@, radix as nat) == digits_value(digits, radix as nat),
            digits_value(digits.take(i - start), radix as nat) == Some(acc as nat),
            acc <= limit,
        decreases n - i,
    {
        let ghost j = i - start;
        proof {
            assert(digits.take(j + 1).drop_last() =~= digits.take(j));
            assert(digits.take(j + 1).last() == text@[i as int]);
            lemma_digits_prefix(digits, j + 1, radix as nat);
        }
        match digit_of(text.get_char(i), radix) {
            None => {
                return None;
            },
            Some(d) => {
                assert(acc * radix <= 65535 * 36) by (nonlinear_arith)
                    requires
                        acc <= 65535,
                        radix <= 36,
                ;
                let next = acc * radix + d;
                if next > limit {
                    return None;
                }
                acc = next;
            },
        }
        i += 1;
    }
    proof {
        assert(digits.take(n - start) =~= digits);
    }
    Some(acc)
}

/// Reads a decimal numeral as a byte.
///
/// The numeral is an optional `+` and then decimal digits; anything else, and a
/// value above 255, is a syntax error about `value`.
pub fn convert_string_to_u8(value: &str) -> (byte: Result<u8, AsmError>)
    ensures
        outcome(byte) == match parse_u8(value@, 10) {
            Some(b) => Ok(b),
            None => Err(AsmErrorView::SyntaxError(value@)),
        },
{
    match parse_numeral(value, 10, 255) {
        Some(number) => Ok(number as u8),
        None => Err(AsmError::syntax(value)),
    }
}

/// Reads a hexadecimal numeral as a byte.
///
/// The numeral is an optional `+` and then hexadecimal digits in either case;
/// anything else, and a value above `FF`, is a syntax error about `value`.
pub fn convert_hex_string_to_u8(value: &str) -> (byte: Result<u8, AsmError>)
    ensures
        outcome(byte) == match parse_u8(value@, 16) {
            Some(b) => Ok(b),
            None => Err(AsmErrorView::SyntaxError(value@)),
        },
{
    match parse_numeral(value, 16, 255) {
        Some(number) => Ok(number as u8),
        None => Err(AsmError::syntax(value)),
    }
}

/// Reads a hexadecimal numeral as a 16-bit number; a syntax error about `value`
/// where it is none or exceeds `FFFF`.
pub fn convert_hex_string_to_u16(value: &str) -> (number: Result<u16, AsmError>)
    ensures
        outcome(number) == match parse_u16(value@, 16) {
            Some(v) => Ok(v),
            None => Err(AsmErrorView::SyntaxError(value@)),
        },
{
    match parse_numeral(value, 16, 65535) {
        Some(number) => Ok(number as u16),
        None => Err(AsmError::syntax(value)),
    }
}

/// Reads exactly two hexadecimal digits as a byte; a syntax error about `value`
/// for any other text.
pub fn convert_hex_pair_to_u8(value: &str) -> (byte: Result<u8, AsmError>)
    ensures
        outcome(byte) == match hex_pair(value@) {
            Some(b) => Ok(b),
            None => Err(AsmErrorView::SyntaxError(value@)),
        },
{
    if value.unicode_len() != 2 {
        return Err(AsmError::syntax(value));
    }
    match (digit_of(value.get_char(0), 16), digit_of(value.get_char(1), 16)) {
        (Some(high), Some(low)) => Ok((high * 16 + low) as u8),
        _ => Err(AsmError::syntax(value)),
    }
}

/// Whether the hexadecimal numeral `value` is an address in the zero page, that
/// is below `100`; a syntax error about `value` where it is no 16-bit numeral.
pub fn is_zero_page(value: &str) -> (zero_page: Result<bool, AsmError>)
    ensures
        outcome(zero_page) == match parse_u16(value@, 16) {
            Some(address) => Ok(address < 256),
            None => Err(AsmErrorView::SyntaxError(value@)),
        },
{
    match convert_hex_string_to_u16(value) {
        Ok(address) => Ok(address < 256),
        Err(e) => Err(e),
    }
}

/// Reads a decimal numeral as a byte, as [`convert_string_to_u8`] does.
pub fn convert_string_to_u16(value: &str) -> (byte: Result<u8, AsmError>)
    ensures
        outcome(byte) == match parse_u8(value@, 10) {
            Some(b) => Ok(b),
            None => Err(AsmErrorView::SyntaxError(value@)),
        },
{
    convert_string_to_u8(value)
}

/// Whether bit 7 of `value` is set.
pub open spec fn spec_check_7_bit(value: u8) -> bool {
    value >= 0x80
}

/// Whether bit 7 of `value` is set.
#[verifier::when_used_as_spec(spec_check_7_bit)]
pub fn check_7_bit(value: u8) -> (set: bool)
    ensures
        set == spec_check_7_bit(value),
        set == (value & 0x80 != 0),
{
    assert((value & 0x80 != 0) == (value >= 0x80)) by (bit_vector);
    value & 0x80 != 0
}

/// The 16-bit address with low byte `l_byte` and high byte `h_byte`.
pub open spec fn spec_combine_address(l_byte: u8, h_byte: u8) -> u16 {
    (h_byte * 256 + l_byte) as u16
}

/// Puts the two bytes of a little-endian address together.
#[verifier::when_used_as_spec(spec_combine_address)]
pub fn combine_address(l_byte: u8, h_byte: u8) -> (address: u16)
    ensures
        address == spec_combine_address(l_byte, h_byte),
        address == h_byte * 256 + l_byte,
{
    (h_byte as u16) * 256 + (l_byte as u16)
}

} // verus!
