use tenki::numbers::{parse_temperature, parse_u32, parse_u8, Temperature};
use tenki::text::{str_eq, trim};

#[test]
fn unsigned_numbers() {
    assert_eq!(parse_u32("24"), Some(24));
    assert_eq!(parse_u32("+5"), Some(5));
    assert_eq!(parse_u32("007"), Some(7));
    assert_eq!(parse_u32("4294967295"), Some(4294967295));
    assert_eq!(parse_u32("4294967296"), None);
    assert_eq!(parse_u32(""), None);
    assert_eq!(parse_u32("+"), None);
    assert_eq!(parse_u32("-1"), None);
    assert_eq!(parse_u32("1 2"), None);
    assert_eq!(parse_u32("---"), None);
    assert_eq!(parse_u8("100"), Some(100));
    assert_eq!(parse_u8("255"), Some(255));
    assert_eq!(parse_u8("256"), None);
    assert_eq!(parse_u8("---"), None);
}

#[test]
fn decimal_temperatures() {
    assert_eq!(
        parse_temperature("-1.5"),
        Some(Temperature { negative: true, mantissa: 15, scale: 1 })
    );
    assert_eq!(
        parse_temperature("12"),
        Some(Temperature { negative: false, mantissa: 12, scale: 0 })
    );
    assert_eq!(
        parse_temperature("+0.25"),
        Some(Temperature { negative: false, mantissa: 25, scale: 2 })
    );
    assert_eq!(
        parse_temperature("5."),
        Some(Temperature { negative: false, mantissa: 5, scale: 0 })
    );
    assert_eq!(
        parse_temperature(".5"),
        Some(Temperature { negative: false, mantissa: 5, scale: 1 })
    );
    assert_eq!(parse_temperature("1.2.3"), None);
    assert_eq!(parse_temperature("."), None);
    assert_eq!(parse_temperature("-"), None);
    assert_eq!(parse_temperature(""), None);
    assert_eq!(parse_temperature("abc"), None);
}

#[test]
fn trimming_and_equality() {
    assert_eq!(trim("  12\n"), "12");
    assert_eq!(trim("\u{3000}晴れ\u{a0}"), "晴れ");
    assert_eq!(trim("   "), "");
    assert_eq!(trim("a b"), "a b");
    assert!(str_eq("晴れ", "晴れ"));
    assert!(!str_eq("晴れ", "晴"));
    assert!(!str_eq("ab", "ac"));
}
