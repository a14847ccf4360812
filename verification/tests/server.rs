use anime_recommend::server::{cors_origins, env_bool_value, parse_same_site, SameSiteMode};

#[test]
fn flags() {
    assert!(env_bool_value(Some("true"), false));
    assert!(env_bool_value(Some("  TRUE \n"), false));
    assert!(env_bool_value(Some("1"), false));
    assert!(!env_bool_value(Some("yes"), true));
    assert!(!env_bool_value(Some(""), true));
    assert!(env_bool_value(None, true));
    assert!(!env_bool_value(None, false));
}

#[test]
fn same_site_values() {
    assert_eq!(parse_same_site("none"), SameSiteMode::NoRestriction);
    assert_eq!(parse_same_site(" None "), SameSiteMode::NoRestriction);
    assert_eq!(parse_same_site("STRICT"), SameSiteMode::Strict);
    assert_eq!(parse_same_site("lax"), SameSiteMode::Lax);
    assert_eq!(parse_same_site(""), SameSiteMode::Lax);
    assert_eq!(parse_same_site("nonsense"), SameSiteMode::Lax);
    assert_eq!(parse_same_site("\u{3000}strict\u{a0}"), SameSiteMode::Strict);
}

#[test]
fn cors_lists() {
    assert_eq!(cors_origins(None), None);
    assert_eq!(cors_origins(Some("")), None);
    assert_eq!(cors_origins(Some(" , ,")), None);
    assert_eq!(
        cors_origins(Some("https://a.example, https://b.example ,,")),
        Some(vec!["https://a.example".to_string(), "https://b.example".to_string()])
    );
    assert_eq!(
        cors_origins(Some("https://ok.example,bad\u{7f}origin")),
        Some(vec!["https://ok.example".to_string()])
    );
}
