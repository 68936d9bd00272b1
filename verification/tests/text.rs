use facesguru::text::{
    decimal_i64, decimal_u64, eq_ignore_case, join_strings, service_url, str_ends_with, str_eq,
    str_is_blank, strip_trailing_slashes, trim_str, utf8_len_at_most,
};

#[test]
fn trimming_unicode_white_space() {
    assert_eq!(trim_str("  a b \n"), "a b");
    assert_eq!(trim_str("\u{3000}x\u{2003}"), "x");
    assert_eq!(trim_str("   "), "");
    assert!(str_is_blank(" \t\n"));
    assert!(str_is_blank(""));
    assert!(!str_is_blank(" a "));
}

#[test]
fn service_urls_drop_trailing_slashes() {
    assert_eq!(service_url("http://h:1//", "/swap"), "http://h:1/swap");
    assert_eq!(service_url("http://h:1", "/generate"), "http://h:1/generate");
    assert_eq!(strip_trailing_slashes("///"), "");
}

#[test]
fn comparisons() {
    assert!(str_eq("abc", "abc"));
    assert!(!str_eq("abc", "abd"));
    assert!(eq_ignore_case("TrUe", "true"));
    assert!(!eq_ignore_case("trueX", "true"));
    assert!(str_ends_with("a.png", ".png"));
    assert!(!str_ends_with("png", ".png"));
}

#[test]
fn decimals() {
    assert_eq!(decimal_u64(0), "0");
    assert_eq!(decimal_u64(1234567890), "1234567890");
    assert_eq!(decimal_u64(u64::MAX), u64::MAX.to_string());
    assert_eq!(decimal_i64(-42), "-42");
    assert_eq!(decimal_i64(i64::MIN), i64::MIN.to_string());
}

#[test]
fn joining_and_byte_lengths() {
    assert_eq!(join_strings(&vec!["a".to_string(), "b".to_string()], ", "), "a, b");
    assert_eq!(join_strings(&vec![], ", "), "");
    assert!(utf8_len_at_most("abcde", 5));
    assert!(!utf8_len_at_most("ééé", 5));
    assert!(utf8_len_at_most("éé", 4));
}

#[test]
fn white_space_matches_std_for_every_char() {
    for v in 0..=0x10ffffu32 {
        if let Some(c) = char::from_u32(v) {
            let s = c.to_string();
            assert_eq!(str_is_blank(&s), c.is_whitespace(), "U+{:04X}", v);
        }
    }
}
