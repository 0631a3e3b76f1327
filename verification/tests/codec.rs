use std::str::FromStr;

use lumpcli::decimal::dec_u64_text;
use lumpcli::lump_id::LumpId;

#[test]
fn canonical_text_is_32_lowercase_hex_digits() {
    let id = LumpId::new(0x12_3456);
    assert_eq!(id.to_text(), "00000000000000000000000000123456");
    assert_eq!(LumpId::new(0).to_text(), "00000000000000000000000000000000");
    assert_eq!(
        LumpId::new(u128::MAX).to_text(),
        "ffffffffffffffffffffffffffffffff"
    );
}

#[test]
fn parse_accepts_short_and_padded_forms() {
    assert_eq!(LumpId::from_text("00ab12"), Some(LumpId::new(0xab12)));
    assert_eq!(LumpId::from_text("ab12"), Some(LumpId::new(0xab12)));
    assert_eq!(LumpId::from_text("0"), Some(LumpId::new(0)));
    // Leading zeros may go past 32 characters as long as the value fits.
    assert_eq!(
        LumpId::from_text("000000000000000000000000000000000001"),
        Some(LumpId::new(1))
    );
}

#[test]
fn parse_accepts_uppercase_and_plus_prefix() {
    assert_eq!(LumpId::from_text("AB"), Some(LumpId::new(0xab)));
    assert_eq!(LumpId::from_text("+ab"), Some(LumpId::new(0xab)));
    assert_eq!(LumpId::from_text("DeadBeef"), Some(LumpId::new(0xdead_beef)));
}

#[test]
fn parse_rejects_malformed_text() {
    assert_eq!(LumpId::from_text(""), None);
    assert_eq!(LumpId::from_text("+"), None);
    assert_eq!(LumpId::from_text("foo_bar"), None);
    assert_eq!(LumpId::from_text("-1"), None);
    assert_eq!(LumpId::from_text("12 34"), None);
    assert_eq!(LumpId::from_text("0x12"), None);
}

#[test]
fn parse_rejects_values_over_128_bits() {
    // 33 hexadecimal digits of value: one bit too many.
    let too_large = "1".to_string() + &"0".repeat(32);
    assert_eq!(LumpId::from_text(&too_large), None);
    let all_a: String = "a".repeat(33);
    assert_eq!(LumpId::from_text(&all_a), None);
    // The largest value itself still parses.
    let max = "f".repeat(32);
    assert_eq!(LumpId::from_text(&max), Some(LumpId::new(u128::MAX)));
}

#[test]
fn round_trip_through_canonical_text() {
    for value in [0u128, 1, 15, 16, 0xab12, u128::MAX / 7, u128::MAX] {
        let id = LumpId::new(value);
        assert_eq!(LumpId::from_text(&id.to_text()), Some(id));
    }
}

#[test]
fn agrees_with_storage_engine_parser() {
    for text in [
        "",
        "0",
        "00ab12",
        "AB",
        "+ab",
        "foo_bar",
        "-1",
        "ffffffffffffffffffffffffffffffff",
        "1000000000000000000000000000000000",
    ] {
        let ours = LumpId::from_text(text);
        let theirs = cannyls::lump::LumpId::from_str(text).ok();
        assert_eq!(ours.map(|id| id.as_u128()), theirs.map(|id| id.as_u128()));
    }
}

#[test]
fn agrees_with_storage_engine_display() {
    for value in [0u128, 1, 0x12_3456, u128::MAX] {
        assert_eq!(
            LumpId::new(value).to_text(),
            cannyls::lump::LumpId::new(value).to_string()
        );
    }
}

#[test]
fn decimal_text_is_shortest_form() {
    assert_eq!(dec_u64_text(0), "0");
    assert_eq!(dec_u64_text(7), "7");
    assert_eq!(dec_u64_text(10), "10");
    assert_eq!(dec_u64_text(255), "255");
    assert_eq!(dec_u64_text(4294967295), "4294967295");
    assert_eq!(dec_u64_text(u64::MAX), "18446744073709551615");
}
