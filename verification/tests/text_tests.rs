use cosmic_clevetura::text::{
    format_version, parse_i32, parse_u32, push_decimal, push_hex, push_signed_decimal, same_text,
    TextLines,
};

#[test]
fn decimal_and_hex_formatting() {
    let mut s = String::new();
    push_decimal(&mut s, 0);
    assert_eq!(s, "0");
    let mut s = String::from("n=");
    push_decimal(&mut s, 1234567890);
    assert_eq!(s, "n=1234567890");
    let mut s = String::new();
    push_signed_decimal(&mut s, -42);
    assert_eq!(s, "-42");
    let mut s = String::new();
    push_signed_decimal(&mut s, i64::MIN);
    assert_eq!(s, i64::MIN.to_string());
    let mut s = String::new();
    push_hex(&mut s, 0xab, 2, false);
    push_hex(&mut s, 0x12345678, 12, true);
    assert_eq!(s, "ab000012345678");
    assert_eq!(format_version(1, 20, 255), "1.20.255");
}

#[test]
fn unsigned_parsing_matches_std() {
    for text in ["0", "7", "+9", "4294967295", "4294967296", "", "+", "-1", "12a", " 1", "00012"] {
        assert_eq!(parse_u32(text), text.parse::<u32>().ok(), "text {text:?}");
    }
}

#[test]
fn signed_parsing_matches_std() {
    for text in ["0", "-0", "-7", "+2", "2147483647", "2147483648", "-2147483648", "-2147483649", "-", "x"] {
        assert_eq!(parse_i32(text), text.parse::<i32>().ok(), "text {text:?}");
    }
}

#[test]
fn decimal_text_parses_back() {
    for n in [0u32, 9, 10, 99, 100, 65535, u32::MAX] {
        let mut s = String::new();
        push_decimal(&mut s, n as u64);
        assert_eq!(parse_u32(&s), Some(n));
    }
}

#[test]
fn text_lines_collect_in_order() {
    let mut a = TextLines::new();
    a.push_text("one");
    a.push_blank();
    let mut b = TextLines::new();
    b.push(String::from("two"));
    a.append(&b);
    assert_eq!(a.lines, vec!["one".to_string(), String::new(), "two".to_string()]);
    assert!(same_text(&String::from("abc"), "abc"));
    assert!(!same_text(&String::from("abc"), "abd"));
}
