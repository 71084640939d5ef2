//! Rendering numbers and identifiers as text.

use vstd::prelude::*;
use vstd::string::StringExecFns;

verus! {

/// One digit as a character, in any base up to sixteen.
pub open spec fn digit_char(digit: nat) -> char {
    if digit < 10 {
        (('0' as u32) + digit) as char
    } else {
        (('a' as u32) + digit - 10) as char
    }
}

/// A number written in `base`, most significant digit first, with no leading zero.
pub open spec fn digits(value: nat, base: nat) -> Seq<char>
    decreases value,
{
    if base < 2 || value < base {
        seq![digit_char(value)]
    } else {
        proof {
            assert(value / base < value) by (nonlinear_arith)
                requires
                    base >= 2,
                    value >= base,
            ;
        }
        digits(value / base, base).push(digit_char(value % base))
    }
}

/// A number in decimal.
pub open spec fn decimal(value: nat) -> Seq<char> {
    digits(value, 10)
}

/// A number in hexadecimal, in lower case.
pub open spec fn hexadecimal(value: nat) -> Seq<char> {
    digits(value, 16)
}

/// A number in decimal, with a minus sign where it is negative.
pub open spec fn signed_decimal(value: int) -> Seq<char> {
    if value < 0 {
        "-"@ + decimal((-value) as nat)
    } else {
        decimal(value as nat)
    }
}

/// A byte as exactly two hexadecimal digits.
pub open spec fn hex_byte(byte: u8) -> Seq<char> {
    seq![digit_char((byte / 16) as nat), digit_char((byte % 16) as nat)]
}

/// Bytes as two hexadecimal digits each, in order.
pub open spec fn hex_bytes(bytes: Seq<u8>) -> Seq<char>
    decreases bytes.len(),
{
    if bytes.len() == 0 {
        Seq::empty()
    } else {
        hex_bytes(bytes.drop_last()) + hex_byte(bytes.last())
    }
}

/// A string of its own holding `text`.
pub fn owned(text: &str) -> (string: String)
    ensures
        string@ == text@,
{
    String::from_str(text)
}

/// Adds `text` to the end of `string`.
pub fn append(string: &mut String, text: &str)
    ensures
        final(string)@ == old(string)@ + text@,
{
    string.append(text);
}

/// The text of one digit.
fn digit_text(digit: u8) -> (text: &'static str)
    requires
        digit < 16,
    ensures
        text@ == seq![digit_char(digit as nat)],
{
    proof {
        reveal_strlit("0");
        reveal_strlit("1");
        reveal_strlit("2");
        reveal_strlit("3");
        reveal_strlit("4");
        reveal_strlit("5");
        reveal_strlit("6");
        reveal_strlit("7");
        reveal_strlit("8");
        reveal_strlit("9");
        reveal_strlit("a");
        reveal_strlit("b");
        reveal_strlit("c");
        reveal_strlit("d");
        reveal_strlit("e");
        reveal_strlit("f");
    }
    if digit == 0 {
        "0"
    } else if digit == 1 {
        "1"
    } else if digit == 2 {
        "2"
    } else if digit == 3 {
        "3"
    } else if digit == 4 {
        "4"
    } else if digit == 5 {
        "5"
    } else if digit == 6 {
        "6"
    } else if digit == 7 {
        "7"
    } else if digit == 8 {
        "8"
    } else if digit == 9 {
        "9"
    } else if digit == 10 {
        "a"
    } else if digit == 11 {
        "b"
    } else if digit == 12 {
        "c"
    } else if digit == 13 {
        "d"
    } else if digit == 14 {
        "e"
    } else {
        "f"
    }
}

/// Adds a number written in `base` to the end of `string`.
fn append_digits(string: &mut String, value: u64, base: u64)
    requires
        2 <= base <= 16,
    ensures
        final(string)@ == old(string)@ + digits(value as nat, base as nat),
    decreases value,
{
    if value >= base {
        assert(value / base < value) by (nonlinear_arith)
            requires
                base >= 2,
                value >= base,
        ;
        append_digits(string, value / base, base);
    }
    let digit: u64 = value % base;
    string.append(digit_text(digit as u8));
    proof {
        if value < base {
            assert(value % base == value) by (nonlinear_arith)
                requires
                    0 <= value < base,
            ;
        }
        assert(string@ =~= old(string)@ + digits(value as nat, base as nat));
    }
}

/// Adds a number in decimal to the end of `string`.
pub fn append_decimal(string: &mut String, value: u64)
    ensures
        final(string)@ == old(string)@ + decimal(value as nat),
{
    append_digits(string, value, 10);
}

/// Adds a number in decimal, signed where it is negative, to the end of `string`.
pub fn append_signed(string: &mut String, value: i64)
    ensures
        final(string)@ == old(string)@ + signed_decimal(value as int),
{
    if value < 0 {
        string.append("-");
        let magnitude: u64 = if value == i64::MIN {
            0x8000_0000_0000_0000
        } else {
            (-value) as u64
        };
        append_digits(string, magnitude, 10);
        assert(string@ =~= old(string)@ + signed_decimal(value as int));
    } else {
        append_digits(string, value as u64, 10);
    }
}

/// Adds a number in hexadecimal to the end of `string`.
pub fn append_hex(string: &mut String, value: u64)
    ensures
        final(string)@ == old(string)@ + hexadecimal(value as nat),
{
    append_digits(string, value, 16);
}

/// Adds each byte as two hexadecimal digits to the end of `string`.
pub fn append_hex_bytes(string: &mut String, bytes: &[u8])
    ensures
        final(string)@ == old(string)@ + hex_bytes(bytes@),
{
    let mut at: usize = 0;
    assert(string@ =~= old(string)@ + hex_bytes(bytes@.take(0)));
    while at < bytes.len()
        invariant
            at <= bytes.len(),
            string@ == old(string)@ + hex_bytes(bytes@.take(at as int)),
        decreases bytes.len() - at,
    {
        let byte: u8 = bytes[at];
        string.append(digit_text(byte / 16));
        string.append(digit_text(byte % 16));
        at += 1;
        proof {
            let done = bytes@.take(at as int);
            assert(done.drop_last() =~= bytes@.take(at - 1));
            assert(string@ =~= old(string)@ + hex_bytes(done));
        }
    }
    assert(bytes@.take(at as int) =~= bytes@);
}

} // verus!
