use media_server::text::{
    chars_of, decimal_len, push_decimal, push_padded, push_signed, str_contains, str_eq,
};

#[test]
fn decimal_formatting() {
    let mut s = String::new();
    push_decimal(&mut s, 0);
    s.push(' ');
    push_decimal(&mut s, 1234567890);
    s.push(' ');
    push_decimal(&mut s, u64::MAX);
    assert_eq!(s, "0 1234567890 18446744073709551615");
    assert_eq!(decimal_len(0), 1);
    assert_eq!(decimal_len(9), 1);
    assert_eq!(decimal_len(10), 2);
    assert_eq!(decimal_len(u64::MAX), 20);
}

#[test]
fn padded_formatting() {
    let mut s = String::new();
    push_padded(&mut s, 7, 3);
    s.push(' ');
    push_padded(&mut s, 1234, 3);
    s.push(' ');
    push_padded(&mut s, 0, 2);
    s.push(' ');
    push_padded(&mut s, 5, 0);
    assert_eq!(s, "007 1234 00 5");
}

#[test]
fn signed_formatting() {
    let mut s = String::new();
    push_signed(&mut s, -42);
    s.push(' ');
    push_signed(&mut s, i64::MIN);
    s.push(' ');
    push_signed(&mut s, 0);
    assert_eq!(s, "-42 -9223372036854775808 0");
}

#[test]
fn string_comparisons() {
    assert!(str_eq("abc", "abc"));
    assert!(!str_eq("abc", "abd"));
    assert!(!str_eq("abc", "ab"));
    assert!(str_eq("", ""));
    assert!(str_eq("żółw", "żółw"));
    assert_eq!(chars_of("añb"), vec!['a', 'ñ', 'b']);
}

#[test]
fn substring_search() {
    assert!(str_contains("segment_001.ts\nsegment_002.ts", "segment_002.ts"));
    assert!(!str_contains("segment_001.ts", "segment_002.ts"));
    assert!(str_contains("abc", ""));
    assert!(str_contains("", ""));
    assert!(!str_contains("", "a"));
    assert!(str_contains("aaab", "aab"));
    assert!(str_contains("héllo", "éll"));
}
