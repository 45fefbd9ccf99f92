use kaspa_ng::text::{decimal_string, hex_string, text_eq};

#[test]
fn decimal_and_hex() {
    for n in [0u64, 1, 9, 10, 99, 100, 12345, u64::MAX] {
        assert_eq!(decimal_string(n), n.to_string());
        assert_eq!(hex_string(n), format!("{n:x}"));
    }
}

#[test]
fn text_equality() {
    assert!(text_eq("", ""));
    assert!(text_eq("añb", "añb"));
    assert!(!text_eq("ab", "abc"));
    assert!(!text_eq("abd", "abc"));
}
