use anime_recommend::auth::{
    authorize, claims_from_entries, claims_json, create_token, create_token_at, hash_password,
    session_claims, verify_password, AuthUser, Claims,
};
use anime_recommend::error::AppError;

fn decode_claims(token: &str, secret: &str, check_exp: bool) -> serde_json::Value {
    let mut validation = jsonwebtoken::Validation::default();
    validation.validate_exp = check_exp;
    jsonwebtoken::decode::<serde_json::Value>(
        token,
        &jsonwebtoken::DecodingKey::from_secret(secret.as_bytes()),
        &validation,
    )
    .expect("token decodes")
    .claims
}

#[test]
fn hashed_password_verifies() {
    let h = hash_password("correct horse battery").unwrap();
    assert!(h.starts_with("$argon2id$v=19$m=19456,t=2,p=1$"));
    assert!(!h.contains("correct horse battery"));
    assert!(verify_password("correct horse battery", &h));
    assert!(!verify_password("correct horse batterY", &h));
}

#[test]
fn hashes_are_salted() {
    let a = hash_password("same password").unwrap();
    let b = hash_password("same password").unwrap();
    assert_ne!(a, b);
    assert!(verify_password("same password", &a));
    assert!(verify_password("same password", &b));
}

#[test]
fn unparsable_hash_is_a_mismatch() {
    assert!(!verify_password("whatever", "not a phc string"));
    assert!(!verify_password("whatever", ""));
}

#[test]
fn claims_json_text() {
    let c = Claims { sub: 42, exp: 1700086400, ver: -3 };
    assert_eq!(claims_json(&c), "{\"sub\":42,\"exp\":1700086400,\"ver\":-3}");
    let c = Claims { sub: i32::MIN, exp: 0, ver: i32::MAX };
    assert_eq!(claims_json(&c), "{\"sub\":-2147483648,\"exp\":0,\"ver\":2147483647}");
}

#[test]
fn token_at_fixed_time() {
    let t1 = create_token_at(7, 2, "secret", 1_700_000_000).unwrap();
    let t2 = create_token_at(7, 2, "secret", 1_700_000_000).unwrap();
    assert_eq!(t1, t2);
    assert_eq!(t1.split('.').count(), 3);
    let claims = decode_claims(&t1, "secret", false);
    assert_eq!(claims["sub"], 7);
    assert_eq!(claims["exp"], 1_700_086_400u64);
    assert_eq!(claims["ver"], 2);
    let other = create_token_at(7, 3, "secret", 1_700_000_000).unwrap();
    assert_ne!(t1, other);
}

#[test]
fn token_signed_with_secret() {
    let t = create_token_at(1, 0, "secret-a", 1_700_000_000).unwrap();
    let mut validation = jsonwebtoken::Validation::default();
    validation.validate_exp = false;
    let wrong = jsonwebtoken::decode::<serde_json::Value>(
        &t,
        &jsonwebtoken::DecodingKey::from_secret(b"secret-b"),
        &validation,
    );
    assert!(wrong.is_err());
}

#[test]
fn token_now_expires_in_a_day() {
    let before = std::time::SystemTime::now()
        .duration_since(std::time::UNIX_EPOCH)
        .unwrap()
        .as_secs();
    let t = create_token(5, 1, "k").unwrap();
    let claims = decode_claims(&t, "k", true);
    let exp = claims["exp"].as_u64().unwrap();
    assert!(exp >= before + 86400 && exp <= before + 86400 + 5);
    assert_eq!(claims["sub"], 5);
    assert_eq!(claims["ver"], 1);
}

#[test]
fn authorize_current_version() {
    let c = Claims { sub: 9, exp: 0, ver: 4 };
    assert_eq!(authorize(Some(c), Some(4)).unwrap(), AuthUser { user_id: 9 });
}

#[test]
fn authorize_refuses_stale_or_missing() {
    let c = Claims { sub: 9, exp: 0, ver: 4 };
    for (claims, version) in [(Some(c), Some(5)), (Some(c), None), (None, Some(4)), (None, None)] {
        match authorize(claims, version) {
            Err(AppError::Unauthorized(m)) => assert_eq!(m, "認証が必要です"),
            other => panic!("unexpected {:?}", other),
        }
    }
}

fn now_secs() -> u64 {
    std::time::SystemTime::now()
        .duration_since(std::time::UNIX_EPOCH)
        .unwrap()
        .as_secs()
}

#[test]
fn issued_token_reads_back() {
    let now = now_secs();
    let t = create_token_at(11, 6, "k", now).unwrap();
    let c = session_claims(Some(&t), "k").unwrap();
    assert_eq!(c, Claims { sub: 11, exp: (now + 86400) as usize, ver: 6 });
    assert_eq!(authorize(Some(c), Some(6)).unwrap(), AuthUser { user_id: 11 });
    // After logout the stored version has moved on.
    assert!(authorize(Some(c), Some(7)).is_err());
}

#[test]
fn session_claims_refusals() {
    assert_eq!(session_claims(None, "k"), None);
    let now = now_secs();
    let t = create_token_at(11, 6, "k", now).unwrap();
    assert_eq!(session_claims(Some(&t), "other"), None);
    assert_eq!(session_claims(Some("not.a.token"), "k"), None);
    let expired = create_token_at(11, 6, "k", 1_000_000).unwrap();
    assert_eq!(session_claims(Some(&expired), "k"), None);
}

#[test]
fn token_time_out_of_range() {
    match create_token_at(1, 1, "k", u64::MAX) {
        Err(AppError::External(m)) => assert_eq!(m, "システム時刻が不正です"),
        other => panic!("unexpected {:?}", other),
    }
}

#[test]
fn claims_from_decoded_entries() {
    let e = |k: &str, a: Option<i64>, b: Option<u64>| (k.to_string(), a, b);
    let ok = vec![e("exp", Some(5), Some(5)), e("iss", None, None), e("sub", Some(-2), None), e("ver", Some(3), Some(3))];
    assert_eq!(claims_from_entries(&ok), Some(Claims { sub: -2, exp: 5, ver: 3 }));
    let missing = vec![e("exp", Some(5), Some(5)), e("sub", Some(1), Some(1))];
    assert_eq!(claims_from_entries(&missing), None);
    let too_big = vec![e("exp", Some(5), Some(5)), e("sub", Some(1 << 40), Some(1 << 40)), e("ver", Some(0), Some(0))];
    assert_eq!(claims_from_entries(&too_big), None);
    let negative_exp = vec![e("exp", Some(-5), None), e("sub", Some(1), Some(1)), e("ver", Some(0), Some(0))];
    assert_eq!(claims_from_entries(&negative_exp), None);
}
