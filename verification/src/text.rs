//! Rendering of integers as text: two-digit upper-case hexadecimal for a
//! colour channel, and signed decimal for a pixel offset.

use vstd::prelude::*;
use vstd::string::*;

verus! {

/// The upper-case hexadecimal digit for `n`, where `0 <= n < 16`.
pub open spec fn hex_digit(n: int) -> char {
    if n < 10 {
        ('0' as int + n) as u8 as char
    } else {
        ('A' as int + n - 10) as u8 as char
    }
}

/// A byte as exactly two upper-case hexadecimal digits, the high one first.
pub open spec fn hex_byte(value: u8) -> Seq<char> {
    seq![hex_digit(value as int / 16), hex_digit(value as int % 16)]
}

/// The decimal digit for `n`, where `0 <= n < 10`.
pub open spec fn decimal_digit(n: int) -> char {
    ('0' as int + n) as u8 as char
}

/// A natural number in decimal, without leading zeros; zero is `"0"`.
pub open spec fn decimal_digits(n: nat) -> Seq<char>
    decreases n,
{
    if n < 10 {
        seq![decimal_digit(n as int)]
    } else {
        decimal_digits(n / 10).push(decimal_digit((n % 10) as int))
    }
}

/// An integer in decimal, with a leading minus sign where it is negative.
pub open spec fn decimal(n: int) -> Seq<char> {
    if n < 0 {
        seq!['-'] + decimal_digits((-n) as nat)
    } else {
        decimal_digits(n as nat)
    }
}

/// The one-character text of a hexadecimal digit.
fn hex_digit_str(n: u8) -> (text: &'static str)
    requires
        n < 16,
    ensures
        text@ == seq![hex_digit(n as int)],
{
    let text = match n {
        0 => "0",
        1 => "1",
        2 => "2",
        3 => "3",
        4 => "4",
        5 => "5",
        6 => "6",
        7 => "7",
        8 => "8",
        9 => "9",
        10 => "A",
        11 => "B",
        12 => "C",
        13 => "D",
        14 => "E",
        _ => "F",
    };
    proof {
        reveal_strlit("0");
        reveal_strlit("1");
        reveal_strlit("2");
        reveal_strlit("3");
        reveal_strlit("4");
        reveal_strlit("5");
        reveal_strlit("6");
        reveal_strlit("7");
        reveal_strlit("8");
        reveal_strlit("9");
        reveal_strlit("A");
        reveal_strlit("B");
        reveal_strlit("C");
        reveal_strlit("D");
        reveal_strlit("E");
        reveal_strlit("F");
        assert(text@ =~= seq![hex_digit(n as int)]);
    }
    text
}

/// Appends the two hexadecimal digits of `value` to `out`.
pub fn append_hex_byte(out: &mut String, value: u8)
    ensures
        final(out)@ == old(out)@ + hex_byte(value),
{
    out.append(hex_digit_str(value / 16));
    out.append(hex_digit_str(value % 16));
    assert(out@ =~= old(out)@ + hex_byte(value));
}

/// Appends the decimal digits of `n` to `out`.
pub fn append_decimal_digits(out: &mut String, n: u32)
    ensures
        final(out)@ == old(out)@ + decimal_digits(n as nat),
    decreases n,
{
    if n >= 10 {
        append_decimal_digits(out, n / 10);
    }
    let last: u32 = n % 10;
    assert(hex_digit(last as int) == decimal_digit(last as int));
    out.append(hex_digit_str(last as u8));
    assert(out@ =~= old(out)@ + decimal_digits(n as nat));
}

/// Appends `n` in decimal to `out`, with a minus sign where it is negative.
pub fn append_decimal(out: &mut String, n: i32)
    ensures
        final(out)@ == old(out)@ + decimal(n as int),
{
    if n < 0 {
        out.append("-");
        proof {
            reveal_strlit("-");
            assert("-"@ =~= seq!['-']);
        }
        let magnitude: u32 = (-(n as i64)) as u32;
        append_decimal_digits(out, magnitude);
        assert(out@ =~= old(out)@ + decimal(n as int));
    } else {
        append_decimal_digits(out, n as u32);
    }
}

/// The value of an upper-case hexadecimal digit; the inverse of `hex_digit`.
pub open spec fn hex_digit_value(c: char) -> int {
    if c as int <= '9' as int {
        c as int - '0' as int
    } else {
        c as int - 'A' as int + 10
    }
}

/// Two hexadecimal digits determine the byte: reading the digits of
/// `hex_byte(value)` back gives `value`, so different bytes have different
/// texts.
pub proof fn lemma_hex_byte_reads_back(value: u8)
    ensures
        hex_byte(value).len() == 2,
        16 * hex_digit_value(hex_byte(value)[0]) + hex_digit_value(hex_byte(value)[1]) == value,
{
}

} // verus!
