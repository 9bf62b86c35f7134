use tplink::util::{
    color_temp_range, contains, decimal_text, labelled, numbered, signed_decimal_text,
    two_digit_text, u32_in_range, valid_color_temp_range,
};

#[test]
fn range_includes_both_ends() {
    assert!(u32_in_range(0, 0, 360));
    assert!(u32_in_range(360, 0, 360));
    assert!(!u32_in_range(361, 0, 360));
    assert!(!u32_in_range(0, 1, 12));
    assert!(u32_in_range(12, 1, 12));
    assert!(!u32_in_range(5, 6, 4));
}

#[test]
fn contains_finds_substrings() {
    assert!(contains("iot.smartplugswitch", "plug"));
    assert!(contains("plug", "plug"));
    assert!(contains("xplug", "plug"));
    assert!(contains("plugx", "plug"));
    assert!(contains("anything", ""));
    assert!(contains("", ""));
    assert!(!contains("", "plug"));
    assert!(!contains("plu", "plug"));
    assert!(!contains("pl-ug", "plug"));
    assert!(!contains("pluplu", "plug"));
    assert!(contains("pluplug", "plug"));
    assert!(contains("naïve café", "é"));
    assert!(!contains("naive cafe", "é"));
}

#[test]
fn color_temp_ranges_by_model() {
    assert_eq!(valid_color_temp_range("LB120(US)"), (2700, 6500));
    assert_eq!(valid_color_temp_range("LB130(EU)"), (2500, 9000));
    assert_eq!(color_temp_range("LB120"), Some((2700, 6500)));
    assert_eq!(color_temp_range("LB130"), Some((2500, 9000)));
    // the first model decides
    assert_eq!(color_temp_range("LB130/LB120"), Some((2700, 6500)));
    assert_eq!(color_temp_range("LB110(US)"), None);
    assert_eq!(color_temp_range("lb120"), None);
    assert_eq!(color_temp_range(""), None);
}

#[test]
fn labels_for_messages() {
    assert_eq!(labelled("LB130(US)", "set_hue"), "LB130(US) set_hue");
    assert_eq!(numbered("set_hue: ", 400, "\u{b0}"), "set_hue: 400\u{b0}");
    assert_eq!(numbered("", 0, ""), "0");
}

#[test]
fn decimal_digits_without_leading_zeros() {
    assert_eq!(decimal_text(0), "0");
    assert_eq!(decimal_text(7), "7");
    assert_eq!(decimal_text(10), "10");
    assert_eq!(decimal_text(361), "361");
    assert_eq!(decimal_text(1_000_000), "1000000");
    assert_eq!(decimal_text(u64::MAX), "18446744073709551615");
    assert_eq!(numbered("x", u32::MAX, "y"), "x4294967295y");
}

#[test]
fn signed_decimal_digits() {
    assert_eq!(signed_decimal_text(0), "0");
    assert_eq!(signed_decimal_text(42), "42");
    assert_eq!(signed_decimal_text(-1), "-1");
    assert_eq!(signed_decimal_text(-1220000), "-1220000");
    assert_eq!(signed_decimal_text(i64::MAX), "9223372036854775807");
    assert_eq!(signed_decimal_text(i64::MIN), "-9223372036854775808");
}

#[test]
fn two_digits_pad_one_digit_only() {
    assert_eq!(two_digit_text(0), "00");
    assert_eq!(two_digit_text(7), "07");
    assert_eq!(two_digit_text(10), "10");
    assert_eq!(two_digit_text(59), "59");
    assert_eq!(two_digit_text(123), "123");
}
