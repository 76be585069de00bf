//! Rendering of unsigned integers as decimal and hexadecimal text.
//!
//! Summary lines are specified down to the character, so the digit strings
//! they embed need exact specifications too.

use vstd::prelude::*;
use vstd::string::*;

verus! {

/// The character for a single digit value below sixteen: `0`-`9`, then `a`-`f`.
pub open spec fn digit_char(d: int) -> char
    recommends
        0 <= d < 16,
{
    if d < 10 {
        (48 + d) as char
    } else {
        (87 + d) as char
    }
}

/// Decimal digits of a non-negative integer, most significant first,
/// with no leading zeros (a lone `0` for zero).
pub open spec fn dec_chars(n: int) -> Seq<char>
    recommends
        n >= 0,
    decreases n,
{
    if n < 10 {
        seq![digit_char(n)]
    } else {
        dec_chars(n / 10).push(digit_char(n % 10))
    }
}

/// Four fixed-width hexadecimal digits of a 16-bit group, most significant first.
pub open spec fn hex_group_chars(g: int) -> Seq<char>
    recommends
        0 <= g < 65536,
{
    seq![
        digit_char(g / 4096 % 16),
        digit_char(g / 256 % 16),
        digit_char(g / 16 % 16),
        digit_char(g % 16),
    ]
}

fn digit_str(d: u64) -> (s: &'static str)
    requires
        d < 16,
    ensures
        s@ == seq![digit_char(d as int)],
{
    let s: &'static str = match d {
        0 => "0",
        1 => "1",
        2 => "2",
        3 => "3",
        4 => "4",
        5 => "5",
        6 => "6",
        7 => "7",
        8 => "8",
        9 => "9",
        10 => "a",
        11 => "b",
        12 => "c",
        13 => "d",
        14 => "e",
        _ => "f",
    };
    proof {
        reveal_strlit("0");
        reveal_strlit("1");
        reveal_strlit("2");
        reveal_strlit("3");
        reveal_strlit("4");
        reveal_strlit("5");
        reveal_strlit("6");
        reveal_strlit("7");
        reveal_strlit("8");
        reveal_strlit("9");
        reveal_strlit("a");
        reveal_strlit("b");
        reveal_strlit("c");
        reveal_strlit("d");
        reveal_strlit("e");
        reveal_strlit("f");
        assert(s@ =~= seq![digit_char(d as int)]);
    }
    s
}

/// Render an unsigned integer in decimal.
pub fn fmt_u64(n: u64) -> (s: String)
    ensures
        s@ == dec_chars(n as int),
    decreases n,
{
    if n < 10 {
        String::from_str(digit_str(n))
    } else {
        assert(n / 10 < n);
        let mut s = fmt_u64(n / 10);
        s.append(digit_str(n % 10));
        proof {
            assert(s@ =~= dec_chars(n as int));
        }
        s
    }
}

/// Render a 16-bit value as four fixed-width hexadecimal digits.
pub fn fmt_hex_group(g: u16) -> (s: String)
    ensures
        s@ == hex_group_chars(g as int),
{
    let mut s = String::from_str(digit_str((g / 4096 % 16) as u64));
    s.append(digit_str((g / 256 % 16) as u64));
    s.append(digit_str((g / 16 % 16) as u64));
    s.append(digit_str((g % 16) as u64));
    proof {
        assert(s@ =~= hex_group_chars(g as int));
    }
    s
}

} // verus!
