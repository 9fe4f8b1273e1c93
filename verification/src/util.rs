//! Numbers as text.

use vstd::prelude::*;
use vstd::string::StringExecFns;

verus! {

/// The character of a digit below sixteen: `0` to `9`, then `A` to `F`.
pub open spec fn spec_digit_char(d: int) -> char {
    if d < 10 {
        (0x30 + d) as u8 as char
    } else {
        (0x41 + d - 10) as u8 as char
    }
}

/// The four upper case hexadecimal digits of a 16-bit number, highest first.
pub open spec fn spec_hex_u16(n: u16) -> Seq<char> {
    seq![
        spec_digit_char(n as int / 4096),
        spec_digit_char((n as int / 256) % 16),
        spec_digit_char((n as int / 16) % 16),
        spec_digit_char(n as int % 16),
    ]
}

/// The decimal digits of a number, highest first, without leading zeros.
pub open spec fn spec_decimal(n: nat) -> Seq<char>
    decreases n,
{
    if n < 10 {
        seq![spec_digit_char(n as int)]
    } else {
        spec_decimal(n / 10).push(spec_digit_char((n % 10) as int))
    }
}

/// The text of one digit below sixteen.
pub(crate) fn digit_text(d: u8) -> (r: &'static str)
    requires
        d < 16,
    ensures
        r@ == seq![spec_digit_char(d as int)],
{
    proof {
        reveal_strlit("0");
        reveal_strlit("1");
        reveal_strlit("2");
        reveal_strlit("3");
        reveal_strlit("4");
        reveal_strlit("5");
        reveal_strlit("6");
        reveal_strlit("7");
        reveal_strlit("8");
        reveal_strlit("9");
        reveal_strlit("A");
        reveal_strlit("B");
        reveal_strlit("C");
        reveal_strlit("D");
        reveal_strlit("E");
        reveal_strlit("F");
    }
    let r = match d {
        0 => "0",
        1 => "1",
        2 => "2",
        3 => "3",
        4 => "4",
        5 => "5",
        6 => "6",
        7 => "7",
        8 => "8",
        9 => "9",
        10 => "A",
        11 => "B",
        12 => "C",
        13 => "D",
        14 => "E",
        _ => "F",
    };
    assert(r@ =~= seq![spec_digit_char(d as int)]);
    r
}

/// Write a 16-bit number as four upper case hexadecimal digits.
pub fn hex_u16(n: u16) -> (r: String)
    ensures
        r@ == spec_hex_u16(n),
{
    let mut r = String::from_str(digit_text((n / 4096) as u8));
    r.append(digit_text(((n / 256) % 16) as u8));
    r.append(digit_text(((n / 16) % 16) as u8));
    r.append(digit_text((n % 16) as u8));
    assert(r@ =~= spec_hex_u16(n));
    r
}

/// Write a number in decimal.
pub fn decimal_u32(n: u32) -> (r: String)
    ensures
        r@ == spec_decimal(n as nat),
    decreases n,
{
    if n < 10 {
        String::from_str(digit_text(n as u8))
    } else {
        let mut r = decimal_u32(n / 10);
        r.append(digit_text((n % 10) as u8));
        assert(r@ =~= spec_decimal(n as nat));
        r
    }
}

} // verus!
