use ecom_api::text::{
    contains_str, find_sub, i64_to_string, is_blank, remove_char, rfind_sub, split_last,
    starts_with_chars, str_eq, trim_chars,
};

fn c(s: &str) -> Vec<char> {
    s.chars().collect()
}

#[test]
fn decimal_numbers() {
    assert_eq!(i64_to_string(0), "0");
    assert_eq!(i64_to_string(12345), "12345");
    assert_eq!(i64_to_string(-908), "-908");
    assert_eq!(i64_to_string(i64::MIN), "-9223372036854775808");
    assert_eq!(i64_to_string(i64::MAX), "9223372036854775807");
}

#[test]
fn searching_text() {
    assert_eq!(find_sub(&c("abcabc"), &c("bc")), Some(1));
    assert_eq!(rfind_sub(&c("abcabc"), &c("bc")), Some(4));
    assert_eq!(find_sub(&c("abc"), &c("x")), None);
    assert!(contains_str("hello world", "o w"));
    assert!(!contains_str("hello", "hello!"));
    assert!(starts_with_chars(&c("Status: ok"), &c("Status:")));
    assert!(str_eq("a", "a"));
    assert!(!str_eq("a", "b"));
}

#[test]
fn trimming_and_splitting() {
    assert!(is_blank(" \t\n"));
    assert!(!is_blank(" x "));
    assert_eq!(trim_chars(&c("  a b \n")), c("a b"));
    assert_eq!(remove_char(&c("08-12-34"), '-'), c("081234"));
    assert_eq!(split_last(&c("a.b.c"), &c(".")), c("c"));
    assert_eq!(split_last(&c("abc"), &c(".")), c("abc"));
}
