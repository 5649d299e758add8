use backend::jwt::{
    clear_jwt_tokens, create_jwt_claims, decode_jwt_token, encode_jwt_token,
    extract_user_id_from_jwt_token, generate_jwt_tokens_for_user, JwtConfig, JwtError,
    JwtTokenKind, ACCESS_TOKEN_LIFETIME_SECS, REFRESH_TOKEN_LIFETIME_SECS,
};

fn test_config() -> JwtConfig {
    JwtConfig {
        access_secret: "access-secret-for-tests".to_string(),
        refresh_secret: "refresh-secret-for-tests".to_string(),
    }
}

#[test]
fn issue_then_validate_returns_subject() {
    let config = test_config();
    let now = 1_700_000_000u64;
    for kind in [JwtTokenKind::ACCESS, JwtTokenKind::REFRESH] {
        let token = encode_jwt_token(&config, 42, kind, now).unwrap();
        let claims = decode_jwt_token(&config, &token, kind, now + 10).unwrap();
        assert_eq!(claims.sub, 42);
        assert_eq!(claims.iat, now);
        assert_eq!(claims.iss, "http://127.0.0.1:8080");
    }
}

#[test]
fn access_token_lifetimes() {
    let config = test_config();
    let now = 1_700_000_000u64;
    let access = encode_jwt_token(&config, 7, JwtTokenKind::ACCESS, now).unwrap();
    let refresh = encode_jwt_token(&config, 7, JwtTokenKind::REFRESH, now).unwrap();
    let a = decode_jwt_token(&config, &access, JwtTokenKind::ACCESS, now).unwrap();
    let r = decode_jwt_token(&config, &refresh, JwtTokenKind::REFRESH, now).unwrap();
    assert_eq!(a.exp, now + ACCESS_TOKEN_LIFETIME_SECS);
    assert_eq!(r.exp, now + REFRESH_TOKEN_LIFETIME_SECS);
}

#[test]
fn cross_kind_validation_fails_both_ways() {
    let config = test_config();
    let now = 1_700_000_000u64;
    let access = encode_jwt_token(&config, 42, JwtTokenKind::ACCESS, now).unwrap();
    let refresh = encode_jwt_token(&config, 42, JwtTokenKind::REFRESH, now).unwrap();
    assert!(matches!(
        decode_jwt_token(&config, &access, JwtTokenKind::REFRESH, now),
        Err(JwtError::Invalid)
    ));
    assert!(matches!(
        decode_jwt_token(&config, &refresh, JwtTokenKind::ACCESS, now),
        Err(JwtError::Invalid)
    ));
}

#[test]
fn expired_token_is_expired_never_invalid() {
    let config = test_config();
    let issued_at = 1_000u64;
    let token = encode_jwt_token(&config, 9, JwtTokenKind::ACCESS, issued_at).unwrap();
    // Far past the 900-second ACCESS lifetime.
    let verdict = decode_jwt_token(&config, &token, JwtTokenKind::ACCESS, issued_at + 10_000);
    assert!(matches!(verdict, Err(JwtError::Expired)));
    // Exactly at the expiry boundary the token no longer validates.
    let at_expiry = decode_jwt_token(
        &config,
        &token,
        JwtTokenKind::ACCESS,
        issued_at + ACCESS_TOKEN_LIFETIME_SECS,
    );
    assert!(matches!(at_expiry, Err(JwtError::Expired)));
}

#[test]
fn tampered_token_is_invalid() {
    let config = test_config();
    let now = 1_700_000_000u64;
    let token = encode_jwt_token(&config, 42, JwtTokenKind::ACCESS, now).unwrap();
    let mut tampered = token.clone();
    tampered.push('x');
    assert!(matches!(
        decode_jwt_token(&config, &tampered, JwtTokenKind::ACCESS, now),
        Err(JwtError::Invalid)
    ));
    assert!(matches!(
        decode_jwt_token(&config, "not-a-token", JwtTokenKind::ACCESS, now),
        Err(JwtError::Invalid)
    ));
}

#[test]
fn extract_user_id_round_trip() {
    let config = test_config();
    let now = 1_700_000_000u64;
    let token = encode_jwt_token(&config, 314, JwtTokenKind::REFRESH, now).unwrap();
    let id = extract_user_id_from_jwt_token(&config, &token, JwtTokenKind::REFRESH, now).unwrap();
    assert_eq!(id, 314);
}

#[test]
fn token_pair_round_trips() {
    let config = test_config();
    let now = 1_700_000_000u64;
    let (access, refresh) = generate_jwt_tokens_for_user(&config, 5, now);
    assert!(!access.is_empty());
    assert!(!refresh.is_empty());
    let a = decode_jwt_token(&config, &access, JwtTokenKind::ACCESS, now).unwrap();
    let r = decode_jwt_token(&config, &refresh, JwtTokenKind::REFRESH, now).unwrap();
    assert_eq!(a.sub, 5);
    assert_eq!(r.sub, 5);
}

#[test]
fn cleared_tokens_are_empty() {
    let (access, refresh) = clear_jwt_tokens();
    assert_eq!(access, "");
    assert_eq!(refresh, "");
}

#[test]
fn claims_carry_issue_time_and_lifetime() {
    let claims = create_jwt_claims(11, JwtTokenKind::ACCESS, 500);
    assert_eq!(claims.sub, 11);
    assert_eq!(claims.iat, 500);
    assert_eq!(claims.exp, 500 + ACCESS_TOKEN_LIFETIME_SECS);
}
