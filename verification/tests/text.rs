use anime_recommend::text::{concat2, i64_text, text_eq, trim, u64_text};

#[test]
fn trim_like_std() {
    for s in ["", "   ", " a ", "\t\na b\r\n", "\u{3000}全角\u{3000}", "x", "\u{85}y\u{2029}"] {
        assert_eq!(trim(s), s.trim());
    }
}

#[test]
fn decimal_like_std() {
    for n in [0i64, 7, -7, 10, 99, 100, -1_000_000, i64::MAX, i64::MIN] {
        assert_eq!(i64_text(n), n.to_string());
    }
    for n in [0u64, 9, 10, 1_700_086_400, u64::MAX] {
        assert_eq!(u64_text(n), n.to_string());
    }
}

#[test]
fn text_helpers() {
    assert!(text_eq("abc", "abc"));
    assert!(!text_eq("abc", "abd"));
    assert!(!text_eq("abc", "ab"));
    assert_eq!(concat2("a", "βc"), "aβc");
}
