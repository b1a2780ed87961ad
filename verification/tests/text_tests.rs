use axum_api::text::{chars_of, push_decimal, strip_prefix, trim_str};

#[test]
fn trim_removes_unicode_white_space() {
    assert_eq!(trim_str("  bob \t"), "bob");
    assert_eq!(trim_str("\u{3000}\u{85}x y\u{2029}"), "x y");
    assert_eq!(trim_str("   "), "");
    assert_eq!(trim_str(""), "");
    assert_eq!(trim_str("\u{200B}x"), "\u{200B}x");
    for s in ["  a b  ", "\n\tü\r", "ก ข", "\u{a0}\u{1680}z\u{205f}"] {
        assert_eq!(trim_str(s), s.trim());
    }
}

#[test]
fn strip_prefix_matches_std() {
    assert_eq!(strip_prefix("Bearer xyz", "Bearer "), Some("xyz"));
    assert_eq!(strip_prefix("Bear", "Bearer "), None);
    assert_eq!(strip_prefix("ไทย-x", "ไทย"), Some("-x"));
    assert_eq!(strip_prefix("abc", ""), Some("abc"));
}

#[test]
fn decimal_text() {
    for n in [0i64, 7, 10, 42, -1, -905, i64::MAX, i64::MIN] {
        let mut s = String::from("id=");
        push_decimal(&mut s, n);
        assert_eq!(s, format!("id={n}"));
    }
}

#[test]
fn chars_in_order() {
    assert_eq!(chars_of("aé😀"), vec!['a', 'é', '😀']);
}
