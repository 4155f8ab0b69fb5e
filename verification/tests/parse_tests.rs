use rtw_core::color::DisplayPixel;
use rtw_core::parse::{hex_rgb, parse_fixed, parse_u32, FIXED_MAX};

#[test]
fn parse_u32_plain_numbers() {
    assert_eq!(parse_u32("0"), Some(0));
    assert_eq!(parse_u32("50"), Some(50));
    assert_eq!(parse_u32("600"), Some(600));
    assert_eq!(parse_u32("007"), Some(7));
    assert_eq!(parse_u32("+15"), Some(15));
    assert_eq!(parse_u32("4294967295"), Some(u32::MAX));
}

#[test]
fn parse_u32_rejects_bad_input() {
    assert_eq!(parse_u32(""), None);
    assert_eq!(parse_u32("+"), None);
    assert_eq!(parse_u32("-1"), None);
    assert_eq!(parse_u32("1.5"), None);
    assert_eq!(parse_u32("abc"), None);
    assert_eq!(parse_u32("12 "), None);
    assert_eq!(parse_u32("4294967296"), None);
    assert_eq!(parse_u32("99999999999999999999"), None);
}

#[test]
fn parse_fixed_whole_and_fraction() {
    assert_eq!(parse_fixed("0"), Some(0));
    assert_eq!(parse_fixed("0.5"), Some(500_000));
    assert_eq!(parse_fixed("1.5"), Some(1_500_000));
    assert_eq!(parse_fixed("45.0"), Some(45_000_000));
    assert_eq!(parse_fixed("-1.0"), Some(-1_000_000));
    assert_eq!(parse_fixed("+2.25"), Some(2_250_000));
    assert_eq!(parse_fixed(".5"), Some(500_000));
    assert_eq!(parse_fixed("5."), Some(5_000_000));
    assert_eq!(parse_fixed("-0"), Some(0));
}

#[test]
fn parse_fixed_truncates_past_six_fraction_digits() {
    assert_eq!(parse_fixed("1.2345678"), Some(1_234_567));
    assert_eq!(parse_fixed("0.0000009"), Some(0));
    assert_eq!(parse_fixed("0.123456"), Some(123_456));
}

#[test]
fn parse_fixed_rejects_bad_input() {
    assert_eq!(parse_fixed(""), None);
    assert_eq!(parse_fixed("."), None);
    assert_eq!(parse_fixed("+"), None);
    assert_eq!(parse_fixed("-."), None);
    assert_eq!(parse_fixed("1e3"), None);
    assert_eq!(parse_fixed("1.2.3"), None);
    assert_eq!(parse_fixed("one"), None);
    assert_eq!(parse_fixed("--1"), None);
}

#[test]
fn parse_fixed_magnitude_limit() {
    assert_eq!(parse_fixed("1000000000"), Some(FIXED_MAX));
    assert_eq!(parse_fixed("-1000000000"), Some(-FIXED_MAX));
    assert_eq!(parse_fixed("1000000000.000001"), None);
    assert_eq!(parse_fixed("1000000001"), None);
}

#[test]
fn hex_rgb_reads_six_digits() {
    assert_eq!(
        hex_rgb("a0a0a0"),
        Some(DisplayPixel { r: 160, g: 160, b: 160 })
    );
    assert_eq!(
        hex_rgb("#ffffff"),
        Some(DisplayPixel { r: 255, g: 255, b: 255 })
    );
    assert_eq!(
        hex_rgb("##00FF7f"),
        Some(DisplayPixel { r: 0, g: 255, b: 127 })
    );
    assert_eq!(
        hex_rgb("fa4e4e99"),
        Some(DisplayPixel { r: 0xfa, g: 0x4e, b: 0x4e })
    );
}

#[test]
fn hex_rgb_rejects_short_or_bad_input() {
    assert_eq!(hex_rgb(""), None);
    assert_eq!(hex_rgb("fff"), None);
    assert_eq!(hex_rgb("#fff"), None);
    assert_eq!(hex_rgb("gggggg"), None);
    assert_eq!(hex_rgb("12345z"), None);
}
