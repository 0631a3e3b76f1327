//! Typed lump identifiers and their textual codec.
//!
//! A lump identifier is a 128-bit number. Its canonical text form is
//! 32 lowercase hexadecimal digits, most significant first. The parser
//! accepts the storage engine's textual identifier format: an optional
//! leading `+`, then one or more hexadecimal digits of either case,
//! whose value fits in 128 bits; leading zeros may be omitted.

use vstd::prelude::*;
use vstd::arithmetic::div_mod::lemma_fundamental_div_mod;
use vstd::arithmetic::div_mod::lemma_multiply_divide_lt;
use vstd::arithmetic::power::pow;
use vstd::string::StrSliceExecFns;
use vstd::string::StringExecFns;

verus! {

/// A lump identifier: a 128-bit number naming one lump on a device.
#[derive(Clone, Copy, Debug, PartialEq, Eq, Structural)]
pub struct LumpId {
    pub value: u128,
}

/// Numeric value of one hexadecimal digit character, or -1 for any
/// other character.
pub open spec fn hex_digit_value(c: char) -> int {
    if c == '0' {
        0
    } else if c == '1' {
        1
    } else if c == '2' {
        2
    } else if c == '3' {
        3
    } else if c == '4' {
        4
    } else if c == '5' {
        5
    } else if c == '6' {
        6
    } else if c == '7' {
        7
    } else if c == '8' {
        8
    } else if c == '9' {
        9
    } else if c == 'a' || c == 'A' {
        10
    } else if c == 'b' || c == 'B' {
        11
    } else if c == 'c' || c == 'C' {
        12
    } else if c == 'd' || c == 'D' {
        13
    } else if c == 'e' || c == 'E' {
        14
    } else if c == 'f' || c == 'F' {
        15
    } else {
        -1
    }
}

/// Whether a character is a hexadecimal digit of either case.
pub open spec fn is_hex_digit(c: char) -> bool {
    hex_digit_value(c) >= 0
}

/// The lowercase hexadecimal digit character for a value below 16.
pub open spec fn hex_char(d: int) -> char {
    if d == 0 {
        '0'
    } else if d == 1 {
        '1'
    } else if d == 2 {
        '2'
    } else if d == 3 {
        '3'
    } else if d == 4 {
        '4'
    } else if d == 5 {
        '5'
    } else if d == 6 {
        '6'
    } else if d == 7 {
        '7'
    } else if d == 8 {
        '8'
    } else if d == 9 {
        '9'
    } else if d == 10 {
        'a'
    } else if d == 11 {
        'b'
    } else if d == 12 {
        'c'
    } else if d == 13 {
        'd'
    } else if d == 14 {
        'e'
    } else {
        'f'
    }
}

/// Whether every character of the sequence is a hexadecimal digit.
pub open spec fn all_hex_digits(s: Seq<char>) -> bool {
    forall|i: int| 0 <= i < s.len() ==> is_hex_digit(#[trigger] s[i])
}

/// The number denoted by a sequence of hexadecimal digits, most
/// significant first.
pub open spec fn hex_value(s: Seq<char>) -> int
    decreases s.len(),
{
    if s.len() == 0 {
        0
    } else {
        16 * hex_value(s.drop_last()) + hex_digit_value(s.last())
    }
}

/// The lowest n hexadecimal digits of a number, most significant
/// first, in lowercase.
pub open spec fn hex_text(v: int, n: nat) -> Seq<char>
    decreases n,
{
    if n == 0 {
        Seq::empty()
    } else {
        hex_text(v / 16, (n - 1) as nat).push(hex_char(v % 16))
    }
}

/// The canonical text form of a lump identifier value: 32 lowercase
/// hexadecimal digits, most significant first.
pub open spec fn canonical_text(v: u128) -> Seq<char> {
    hex_text(v as int, 32)
}

/// The digit portion of lump identifier text: everything after an
/// optional leading plus sign.
pub open spec fn lump_digits(s: Seq<char>) -> Seq<char> {
    if s.len() > 0 && s[0] == '+' {
        s.subrange(1, s.len() as int)
    } else {
        s
    }
}

/// The value denoted by lump identifier text, if the text conforms to
/// the storage engine's format: after an optional leading plus sign,
/// one or more hexadecimal digits whose value fits in 128 bits.
pub open spec fn parse_lump_text(s: Seq<char>) -> Option<u128> {
    let d = lump_digits(s);
    if d.len() > 0 && all_hex_digits(d) && hex_value(d) <= u128::MAX as int {
        Some(hex_value(d) as u128)
    } else {
        None
    }
}

/// The identifier denoted by lump identifier text, if any.
pub open spec fn spec_from_text(s: Seq<char>) -> Option<LumpId> {
    match parse_lump_text(s) {
        Some(v) => Some(LumpId { value: v }),
        None => None,
    }
}

/// A sequence of hexadecimal digits denotes a nonnegative number.
proof fn lemma_hex_value_nonneg(s: Seq<char>)
    requires
        all_hex_digits(s),
    ensures
        hex_value(s) >= 0,
    decreases s.len(),
{
    if s.len() > 0 {
        assert(all_hex_digits(s.drop_last()));
        lemma_hex_value_nonneg(s.drop_last());
    }
}

/// Extending a sequence of hexadecimal digits to the right never
/// decreases the number it denotes.
proof fn lemma_hex_value_prefix_le(s: Seq<char>, i: int)
    requires
        all_hex_digits(s),
        0 <= i <= s.len(),
    ensures
        hex_value(s.subrange(0, i)) <= hex_value(s),
    decreases s.len(),
{
    if i == s.len() {
        assert(s.subrange(0, i) =~= s);
    } else {
        let t = s.drop_last();
        assert(all_hex_digits(t));
        assert(s.subrange(0, i) =~= t.subrange(0, i));
        lemma_hex_value_prefix_le(t, i);
        lemma_hex_value_nonneg(t);
    }
}

/// Rendering a digit and reading it back is the identity, and the
/// rendered character is never a plus sign.
proof fn lemma_hex_char_inverse(d: int)
    requires
        0 <= d < 16,
    ensures
        is_hex_digit(hex_char(d)),
        hex_digit_value(hex_char(d)) == d,
        hex_char(d) != '+',
{
}

/// Fixed-width hexadecimal text has the requested width and consists
/// of hexadecimal digits only.
proof fn lemma_hex_text_wf(v: int, n: nat)
    requires
        v >= 0,
    ensures
        hex_text(v, n).len() == n,
        all_hex_digits(hex_text(v, n)),
        n > 0 ==> hex_text(v, n)[0] != '+',
    decreases n,
{
    if n > 0 {
        vstd::arithmetic::div_mod::lemma_div_pos_is_pos(v, 16);
        lemma_hex_text_wf(v / 16, (n - 1) as nat);
        lemma_hex_char_inverse(v % 16);
        let t = hex_text(v / 16, (n - 1) as nat);
        let s = hex_text(v, n);
        assert(s == t.push(hex_char(v % 16)));
        assert forall|i: int| 0 <= i < s.len() implies is_hex_digit(#[trigger] s[i]) by {
            if i < t.len() {
                assert(s[i] == t[i]);
            } else {
                assert(s[i] == hex_char(v % 16));
            }
        }
        if n == 1 {
            assert(s[0] == hex_char(v % 16));
        } else {
            assert(s[0] == t[0]);
        }
    }
}

/// Reading fixed-width hexadecimal text back yields the rendered
/// number, provided the number fits in that width.
proof fn lemma_hex_text_value(v: int, n: nat)
    requires
        0 <= v < pow(16, n),
    ensures
        hex_value(hex_text(v, n)) == v,
    decreases n,
{
    if n == 0 {
        vstd::arithmetic::power::lemma_pow0(16);
    } else {
        let q = v / 16;
        let r = v % 16;
        assert(pow(16, n) == 16 * pow(16, (n - 1) as nat)) by {
            reveal(pow);
        }
        vstd::arithmetic::power::lemma_pow_positive(16, (n - 1) as nat);
        lemma_multiply_divide_lt(v, pow(16, (n - 1) as nat), 16);
        vstd::arithmetic::div_mod::lemma_div_pos_is_pos(v, 16);
        lemma_hex_text_value(q, (n - 1) as nat);
        let t = hex_text(q, (n - 1) as nat);
        let s = hex_text(v, n);
        assert(s == t.push(hex_char(r)));
        assert(s.drop_last() =~= t);
        assert(s.last() == hex_char(r));
        lemma_hex_char_inverse(r);
        lemma_fundamental_div_mod(v, 16);
    }
}

/// 16 to the 32nd power is one more than the largest 128-bit number.
proof fn lemma_pow16_32()
    ensures
        pow(16, 32) == 0x100000000000000000000000000000000int,
{
    vstd::arithmetic::power::lemma_pow1(16);
    vstd::arithmetic::power::lemma_pow_adds(16, 1, 1);
    assert(pow(16, 2) == 256);
    vstd::arithmetic::power::lemma_pow_adds(16, 2, 2);
    assert(pow(16, 4) == 0x10000);
    vstd::arithmetic::power::lemma_pow_adds(16, 4, 4);
    assert(pow(16, 8) == 0x100000000);
    vstd::arithmetic::power::lemma_pow_adds(16, 8, 8);
    assert(pow(16, 16) == 0x10000000000000000);
    vstd::arithmetic::power::lemma_pow_adds(16, 16, 16);
}

/// Round trip of the identifier codec: parsing the canonical text
/// form of any identifier yields that identifier exactly.
pub proof fn lemma_text_round_trip(id: LumpId)
    ensures
        spec_from_text(canonical_text(id.value)) == Some(id),
{
    let v = id.value as int;
    let s = canonical_text(id.value);
    lemma_pow16_32();
    lemma_hex_text_wf(v, 32);
    lemma_hex_text_value(v, 32);
    assert(lump_digits(s) == s);
}

/// The canonical text form is always 32 hexadecimal digits.
pub proof fn lemma_canonical_text_len(v: u128)
    ensures
        canonical_text(v).len() == 32,
        all_hex_digits(canonical_text(v)),
{
    lemma_hex_text_wf(v as int, 32);
}

/// Largest accumulator value that can take one more hexadecimal digit
/// without exceeding 128 bits.
const HEX_ACC_LIMIT: u128 = 0xFFFFFFFFFFFFFFFFFFFFFFFFFFFFFFF;

/// Classifies a character as a hexadecimal digit, returning its value.
fn hex_digit_of(c: char) -> (r: Option<u8>)
    ensures
        r is Some <==> is_hex_digit(c),
        r matches Some(d) ==> d as int == hex_digit_value(c) && d < 16,
{
    match c {
        '0' => Some(0u8),
        '1' => Some(1u8),
        '2' => Some(2u8),
        '3' => Some(3u8),
        '4' => Some(4u8),
        '5' => Some(5u8),
        '6' => Some(6u8),
        '7' => Some(7u8),
        '8' => Some(8u8),
        '9' => Some(9u8),
        'a' => Some(10u8),
        'b' => Some(11u8),
        'c' => Some(12u8),
        'd' => Some(13u8),
        'e' => Some(14u8),
        'f' => Some(15u8),
        'A' => Some(10u8),
        'B' => Some(11u8),
        'C' => Some(12u8),
        'D' => Some(13u8),
        'E' => Some(14u8),
        'F' => Some(15u8),
        _ => None,
    }
}

/// Renders one hexadecimal digit as a lowercase character.
fn hex_digit_text(d: u8) -> (r: &'static str)
    requires
        d < 16,
    ensures
        r@ == seq![hex_char(d as int)],
{
    let r: &'static str = match d {
        0 => "0",
        1 => "1",
        2 => "2",
        3 => "3",
        4 => "4",
        5 => "5",
        6 => "6",
        7 => "7",
        8 => "8",
        9 => "9",
        10 => "a",
        11 => "b",
        12 => "c",
        13 => "d",
        14 => "e",
        _ => "f",
    };
    proof {
        reveal_strlit("0");
        reveal_strlit("1");
        reveal_strlit("2");
        reveal_strlit("3");
        reveal_strlit("4");
        reveal_strlit("5");
        reveal_strlit("6");
        reveal_strlit("7");
        reveal_strlit("8");
        reveal_strlit("9");
        reveal_strlit("a");
        reveal_strlit("b");
        reveal_strlit("c");
        reveal_strlit("d");
        reveal_strlit("e");
        reveal_strlit("f");
        assert(r@ =~= seq![hex_char(d as int)]);
    }
    r
}

/// Renders the lowest n hexadecimal digits of a number, most
/// significant first.
fn hex_text_fixed(v: u128, n: u8) -> (r: String)
    ensures
        r@ == hex_text(v as int, n as nat),
    decreases n,
{
    if n == 0 {
        let r = String::new();
        proof {
            assert(r@ =~= hex_text(v as int, 0));
        }
        r
    } else {
        let mut s = hex_text_fixed(v / 16, n - 1);
        let d: u8 = (v % 16) as u8;
        let ghost prefix = s@;
        s.append(hex_digit_text(d));
        proof {
            assert(s@ =~= prefix.push(hex_char(d as int)));
        }
        s
    }
}

impl LumpId {
    /// Wraps a 128-bit number as a lump identifier.
    pub fn new(value: u128) -> (r: LumpId)
        ensures
            r.value == value,
    {
        LumpId { value }
    }

    /// Returns the numeric value of the identifier.
    pub fn as_u128(&self) -> (r: u128)
        ensures
            r == self.value,
    {
        self.value
    }

    /// Renders the identifier in its canonical text form: 32 lowercase
    /// hexadecimal digits, most significant first.
    pub fn to_text(&self) -> (r: String)
        ensures
            r@ == canonical_text(self.value),
    {
        hex_text_fixed(self.value, 32)
    }

    /// Parses lump identifier text. Returns the denoted identifier,
    /// or nothing when the text does not conform to the storage
    /// engine's format.
    pub fn from_text(s: &str) -> (r: Option<LumpId>)
        ensures
            r == spec_from_text(s@),
    {
        let n = s.unicode_len();
        let mut i: usize = 0;
        if n > 0 && s.get_char(0) == '+' {
            i = 1;
        }
        proof {
            assert(lump_digits(s@) =~= s@.subrange(i as int, n as int));
        }
        let ghost digits = s@.subrange(i as int, n as int);
        if i >= n {
            proof {
                assert(digits.len() == 0);
            }
            return None;
        }
        let mut acc: u128 = 0;
        let mut j: usize = i;
        proof {
            assert(s@.subrange(i as int, i as int) =~= Seq::<char>::empty());
        }
        while j < n
            invariant
                i <= j <= n,
                n == s@.len(),
                digits == s@.subrange(i as int, n as int),
                digits == lump_digits(s@),
                all_hex_digits(s@.subrange(i as int, j as int)),
                acc as int == hex_value(s@.subrange(i as int, j as int)),
            decreases n - j,
    {
            let ghost pre = s@.subrange(i as int, j as int);
            let c = s.get_char(j);
            let ghost ext = s@.subrange(i as int, j as int + 1);
            proof {
                assert(ext.drop_last() =~= pre);
                assert(ext.last() == c);
                assert(ext =~= digits.subrange(0, j as int + 1 - i as int));
            }
            let d: u8 = match hex_digit_of(c) {
                Some(d) => d,
                None => {
                    proof {
                        assert(digits[j - i] == c);
                        assert(!all_hex_digits(digits));
                    }
                    return None;
                },
            };
            if acc > HEX_ACC_LIMIT {
                proof {
                    assert(hex_value(ext) == 16 * (acc as int) + d as int);
                    assert(hex_value(ext) > u128::MAX as int);
                    if all_hex_digits(digits) {
                        lemma_hex_value_prefix_le(digits, j as int + 1 - i as int);
                        assert(hex_value(digits) > u128::MAX as int);
                    }
                }
                return None;
            }
            acc = acc * 16 + (d as u128);
            proof {
                assert(acc as int == hex_value(ext));
                assert(all_hex_digits(ext));
            }
            j = j + 1;
        }
        proof {
            assert(s@.subrange(i as int, n as int) == digits);
            assert(all_hex_digits(digits));
            assert(hex_value(digits) == acc as int);
            assert(digits.len() > 0);
        }
        Some(LumpId { value: acc })
    }
}

} // verus!
