use zk_agent::text::{
    chars_of, contains_exec, join_strings, key_less_exec, nul_error, push_decimal, push_signed, rfind_exec,
    string_of,
};

#[test]
fn decimals() {
    let mut s = String::new();
    push_decimal(&mut s, 0);
    s.push(' ');
    push_decimal(&mut s, 18446744073709551615);
    assert_eq!(s, "0 18446744073709551615");
    let mut t = String::from("x=");
    push_signed(&mut t, -9223372036854775808);
    assert_eq!(t, "x=-9223372036854775808");
    let mut u = String::new();
    push_signed(&mut u, 17);
    assert_eq!(u, "17");
}

#[test]
fn joins() {
    assert_eq!(join_strings(&vec![], ", "), "");
    assert_eq!(join_strings(&vec!["a".to_string()], ", "), "a");
    assert_eq!(join_strings(&vec!["a".to_string(), "b".to_string(), "c".to_string()], ", "), "a, b, c");
}

#[test]
fn searching() {
    let s = chars_of("a = b = c");
    let p = chars_of("= ");
    assert!(contains_exec(&s, &p));
    assert_eq!(rfind_exec(&s, &p), Some(6));
    assert_eq!(rfind_exec(&s, &chars_of("zz")), None);
    assert_eq!(string_of(&s), "a = b = c");
}

#[test]
fn key_order() {
    assert!(key_less_exec(&chars_of("alice"), &chars_of("bob")));
    assert!(key_less_exec(&chars_of("ab"), &chars_of("abc")));
    assert!(!key_less_exec(&chars_of("abc"), &chars_of("ab")));
    assert!(!key_less_exec(&chars_of("x"), &chars_of("x")));
    assert!(key_less_exec(&chars_of("Zed"), &chars_of("alice")));
}

#[test]
fn nul_positions_count_utf8_bytes() {
    assert_eq!(nul_error("plain"), None);
    assert_eq!(nul_error("\0"), Some("nul byte found in provided data at position: 0".to_string()));
    assert_eq!(
        nul_error("a\u{10000}\0b\0"),
        Some("nul byte found in provided data at position: 5".to_string())
    );
}
