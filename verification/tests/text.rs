use energy_panel::text::contains_minus;
use energy_panel::text::decimal_text;
use energy_panel::text::glyph_count;
use energy_panel::text::joined;
use energy_panel::text::same_text;
use energy_panel::text::starts_with_minus;

#[test]
fn decimal_text_writes_counters() {
    assert_eq!(decimal_text(0), "0");
    assert_eq!(decimal_text(7), "7");
    assert_eq!(decimal_text(10), "10");
    assert_eq!(decimal_text(12345), "12345");
    assert_eq!(decimal_text(9_007_199_254_740_993), "9007199254740993");
    assert_eq!(decimal_text(u64::MAX), "18446744073709551615");
}

#[test]
fn decimal_text_agrees_with_the_standard_formatting() {
    for n in 0..2000u64 {
        assert_eq!(decimal_text(n), format!("{}", n));
    }
}

#[test]
fn glyph_count_counts_glyphs_not_bytes() {
    assert_eq!(glyph_count(""), 0);
    assert_eq!(glyph_count("0.00"), 4);
    assert_eq!(glyph_count("-0.00"), 5);
    assert_eq!(glyph_count("1°"), 2);
}

#[test]
fn starts_with_minus_looks_at_the_first_glyph() {
    assert!(starts_with_minus("-1.20"));
    assert!(starts_with_minus("-"));
    assert!(!starts_with_minus(""));
    assert!(!starts_with_minus("1.20"));
    assert!(!starts_with_minus("+-1"));
}

#[test]
fn contains_minus_looks_at_every_glyph() {
    assert!(contains_minus("-1.20"));
    assert!(contains_minus("1.2-"));
    assert!(contains_minus("1-2"));
    assert!(!contains_minus(""));
    assert!(!contains_minus("1.20"));
}

#[test]
fn same_text_compares_glyph_by_glyph() {
    assert!(same_text("", ""));
    assert!(same_text("0.00", "0.00"));
    assert!(!same_text("0.00", "-0.00"));
    assert!(!same_text("0.00", "0.01"));
    assert!(!same_text("0.00", "0.0"));
}

#[test]
fn joined_puts_one_text_after_the_other() {
    assert_eq!(joined("+", "87"), "+87");
    assert_eq!(joined("", ""), "");
    assert_eq!(joined("Retry: ", "3"), "Retry: 3");
}
