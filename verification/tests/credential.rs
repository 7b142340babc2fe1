//! Credential codec and identity extractor behaviour, exercised with the
//! real signing backend.

use marketplace_core::auth::{
    create_token, extract, protected, validate_token, AuthError, Claims, CodecConfig,
};

fn cfg() -> CodecConfig {
    CodecConfig { secret: b"test-signing-secret".to_vec(), validity_hours: 24 }
}

#[test]
fn issued_token_verifies_before_expiry() {
    let cfg = cfg();
    let now = 1_700_000_000i64;
    let token = create_token(42, "alice".to_string(), &cfg, now).unwrap();
    let claims = validate_token(&token, &cfg.secret, now).unwrap();
    assert_eq!(claims.sub, "42");
    assert_eq!(claims.username, "alice");
    assert_eq!(claims.iat, now);
    assert_eq!(claims.exp, now + 24 * 3600);
}

#[test]
fn extract_returns_identity_with_same_subject_and_name() {
    let cfg = cfg();
    let now = 1_700_000_000i64;
    let token = create_token(7, "bob".to_string(), &cfg, now).unwrap();
    let ident = extract(Some(&token), &cfg.secret, now + 100).unwrap();
    assert_eq!(ident.subject_id, 7);
    assert_eq!(ident.display_name, "bob");
    assert_eq!(ident.issued_at, now);
    assert_eq!(ident.expires_at, now + 24 * 3600);
}

#[test]
fn token_expired_one_second_in_the_past_is_rejected() {
    let cfg = cfg();
    let now = 1_700_000_000i64;
    let token = create_token(7, "bob".to_string(), &cfg, now).unwrap();
    // expires_at = now + 24h; checking one second after that is expired
    let later = now + 24 * 3600 + 1;
    match validate_token(&token, &cfg.secret, later) {
        Err(AuthError::TokenExpired) => {}
        other => panic!("expected TokenExpired, got {:?}", other.map(|c| c.sub)),
    }
    match extract(Some(&token), &cfg.secret, later) {
        Err(AuthError::TokenExpired) => {}
        _ => panic!("expected TokenExpired from extract"),
    }
}

#[test]
fn expiry_boundary_is_exclusive() {
    let cfg = cfg();
    let now = 1_700_000_000i64;
    let token = create_token(7, "bob".to_string(), &cfg, now).unwrap();
    let exp = now + 24 * 3600;
    // still valid one second before expiry
    assert!(validate_token(&token, &cfg.secret, exp - 1).is_ok());
    // no longer valid at the expiry instant itself
    assert!(matches!(validate_token(&token, &cfg.secret, exp), Err(AuthError::TokenExpired)));
}

#[test]
fn tampered_payload_never_verifies() {
    let cfg = cfg();
    let now = 1_700_000_000i64;
    let token = create_token(42, "alice".to_string(), &cfg, now).unwrap();
    let dot = token.find('.').unwrap();
    // alter one byte of the signed payload
    let mut bytes = token.clone().into_bytes();
    let i = dot + 2;
    bytes[i] = if bytes[i] == b'A' { b'B' } else { b'A' };
    let tampered = String::from_utf8(bytes).unwrap();
    assert_ne!(tampered, token);
    match validate_token(&tampered, &cfg.secret, now) {
        Err(AuthError::InvalidToken) => {}
        Ok(_) => panic!("tampered token verified"),
        Err(e) => panic!("expected InvalidToken, got {:?}", e.message()),
    }
}

#[test]
fn wrong_secret_never_verifies() {
    let cfg = cfg();
    let now = 1_700_000_000i64;
    let token = create_token(42, "alice".to_string(), &cfg, now).unwrap();
    let other = b"another-secret".to_vec();
    assert!(matches!(validate_token(&token, &other, now), Err(AuthError::InvalidToken)));
}

#[test]
fn garbage_token_is_invalid_not_a_panic() {
    let cfg = cfg();
    assert!(matches!(
        validate_token("not-a-token", &cfg.secret, 0),
        Err(AuthError::InvalidToken)
    ));
}

#[test]
fn missing_credential_is_its_own_failure() {
    let cfg = cfg();
    match extract(None, &cfg.secret, 0) {
        Err(AuthError::MissingToken) => {}
        _ => panic!("expected MissingToken"),
    }
}

#[test]
fn auth_error_messages() {
    assert_eq!(AuthError::InvalidToken.message(), "Invalid token");
    assert_eq!(AuthError::MissingToken.message(), "Missing token");
    assert_eq!(AuthError::TokenExpired.message(), "Token expired");
}

#[test]
fn claims_new_stamps_issue_and_expiry() {
    let c = Claims::new(-17, "neg".to_string(), 1000, 2);
    assert_eq!(c.sub, "-17");
    assert_eq!(c.username, "neg");
    assert_eq!(c.iat, 1000);
    assert_eq!(c.exp, 1000 + 7200);
}

#[test]
fn protected_echoes_claims() {
    let c = Claims { sub: "9".to_string(), username: "zoe".to_string(), exp: 10, iat: 5 };
    let r = protected(c);
    assert_eq!(r.message, "You are authenticated!");
    assert_eq!(r.user_id, "9");
    assert_eq!(r.username, "zoe");
}
