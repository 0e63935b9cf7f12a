use example_sea_query::errors::AppError;
use example_sea_query::token::JwtConfig;
use example_sea_query::token::TOKEN_TTL_SECONDS;

#[test]
fn issued_token_round_trips_immediately() {
    let jwt = JwtConfig::new("a-test-secret");
    let token = jwt.issue_token_at(42, 1_000).unwrap();
    assert_eq!(jwt.verify_token_at(&token, 1_000), Ok(42));
}

#[test]
fn issued_token_round_trips_for_many_subjects() {
    let jwt = JwtConfig::new("a-test-secret");
    for sub in [0i64, 1, -5, 7_000_000_000] {
        let token = jwt.issue_token_at(sub, 123_456).unwrap();
        assert_eq!(jwt.verify_token_at(&token, 123_456), Ok(sub));
        assert_eq!(jwt.verify_token_at(&token, 200_000), Ok(sub));
    }
}

#[test]
fn token_expires_with_token_expired_not_invalid() {
    let jwt = JwtConfig::new("a-test-secret");
    let token = jwt.issue_token_at(7, 1_000).unwrap();
    let at_expiry = 1_000 + TOKEN_TTL_SECONDS;
    assert_eq!(jwt.verify_token_at(&token, at_expiry), Err(AppError::TokenExpired));
    assert_eq!(jwt.verify_token_at(&token, at_expiry + 99), Err(AppError::TokenExpired));
    assert_eq!(jwt.verify_token_at(&token, at_expiry - 1), Ok(7));
}

#[test]
fn altered_signature_byte_fails_as_invalid() {
    let jwt = JwtConfig::new("a-test-secret");
    let token = jwt.issue_token_at(7, 1_000).unwrap();
    let mut tampered = token.clone();
    let last = tampered.pop().unwrap();
    tampered.push(if last == 'A' { 'B' } else { 'A' });
    assert_ne!(token, tampered);
    assert_eq!(jwt.verify_token_at(&tampered, 1_000), Err(AppError::TokenInvalid));
}

#[test]
fn every_signature_byte_matters() {
    let jwt = JwtConfig::new("a-test-secret");
    let token = jwt.issue_token_at(9, 2_000).unwrap();
    let sig_start = token.rfind('.').unwrap() + 1;
    for i in sig_start..token.len() {
        let mut tampered: Vec<u8> = token.as_bytes().to_vec();
        tampered[i] = if tampered[i] == b'A' { b'B' } else { b'A' };
        let tampered = String::from_utf8(tampered).unwrap();
        assert_eq!(jwt.verify_token_at(&tampered, 2_000), Err(AppError::TokenInvalid));
    }
}

#[test]
fn truncated_token_fails_as_invalid() {
    let jwt = JwtConfig::new("a-test-secret");
    let token = jwt.issue_token_at(7, 1_000).unwrap();
    let truncated = &token[..token.len() - 1];
    assert_eq!(jwt.verify_token_at(truncated, 1_000), Err(AppError::TokenInvalid));
}

#[test]
fn wrong_secret_fails_as_invalid() {
    let jwt = JwtConfig::new("a-test-secret");
    let other = JwtConfig::new("another-secret");
    let token = jwt.issue_token_at(7, 1_000).unwrap();
    assert_eq!(other.verify_token_at(&token, 1_000), Err(AppError::TokenInvalid));
}

#[test]
fn garbage_tokens_fail_as_invalid() {
    let jwt = JwtConfig::new("a-test-secret");
    for bad in ["", "abc", "a.b", "a.b.c", "..", "header.payload.signature"] {
        assert_eq!(jwt.verify_token_at(bad, 0), Err(AppError::TokenInvalid));
    }
}

#[test]
fn a_chosen_lifetime_is_honored() {
    let jwt = JwtConfig::with_ttl("a-test-secret", 60);
    let token = jwt.issue_token_at(3, 500).unwrap();
    assert_eq!(jwt.verify_token_at(&token, 559), Ok(3));
    assert_eq!(jwt.verify_token_at(&token, 560), Err(AppError::TokenExpired));
}

#[test]
fn a_short_work_factor_still_round_trips() {
    let hashing = example_sea_query::hashing::Hashing::with_cost(4);
    let hash = hashing.hash_password("secret123").unwrap();
    assert_eq!(hash.len(), 60);
    assert_eq!(hashing.compare_password(&hash, "secret123"), Ok(()));
}

#[test]
fn generate_token_verifies_at_once() {
    let jwt = JwtConfig::new("a-test-secret");
    let token = jwt.generate_token(31).unwrap();
    assert_eq!(jwt.verify_token(&token), Ok(31));
}
