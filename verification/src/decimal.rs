//! Decimal rendering of the numbers that appear in output lines: the
//! lump count of an enumeration, byte values, and data sizes.

use vstd::prelude::*;
use vstd::string::StringExecFns;

verus! {

/// The decimal digit character for a value below ten.
pub open spec fn dec_char(d: int) -> char {
    if d == 0 {
        '0'
    } else if d == 1 {
        '1'
    } else if d == 2 {
        '2'
    } else if d == 3 {
        '3'
    } else if d == 4 {
        '4'
    } else if d == 5 {
        '5'
    } else if d == 6 {
        '6'
    } else if d == 7 {
        '7'
    } else if d == 8 {
        '8'
    } else {
        '9'
    }
}

/// The shortest decimal text of a nonnegative number: no leading
/// zeros, and a single zero digit for zero itself.
pub open spec fn dec_text(v: int) -> Seq<char>
    decreases v,
{
    if v < 10 {
        seq![dec_char(v)]
    } else {
        dec_text(v / 10).push(dec_char(v % 10))
    }
}

/// Renders one decimal digit as a character.
fn dec_digit_text(d: u8) -> (r: &'static str)
    requires
        d < 10,
    ensures
        r@ == seq![dec_char(d as int)],
{
    let r: &'static str = match d {
        0 => "0",
        1 => "1",
        2 => "2",
        3 => "3",
        4 => "4",
        5 => "5",
        6 => "6",
        7 => "7",
        8 => "8",
        _ => "9",
    };
    proof {
        reveal_strlit("0");
        reveal_strlit("1");
        reveal_strlit("2");
        reveal_strlit("3");
        reveal_strlit("4");
        reveal_strlit("5");
        reveal_strlit("6");
        reveal_strlit("7");
        reveal_strlit("8");
        reveal_strlit("9");
        assert(r@ =~= seq![dec_char(d as int)]);
    }
    r
}

/// Renders a number as its shortest decimal text.
pub fn dec_u64_text(v: u64) -> (r: String)
    ensures
        r@ == dec_text(v as int),
    decreases v,
{
    if v < 10 {
        let mut s = String::new();
        s.append(dec_digit_text(v as u8));
        proof {
            assert(s@ =~= seq![dec_char(v as int)]);
        }
        s
    } else {
        let mut s = dec_u64_text(v / 10);
        let ghost prefix = s@;
        s.append(dec_digit_text((v % 10) as u8));
        proof {
            assert(s@ =~= prefix.push(dec_char(v as int % 10)));
        }
        s
    }
}

} // verus!
