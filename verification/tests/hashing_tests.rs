use example_sea_query::errors::AppError;
use example_sea_query::hashing::Hashing;

#[test]
fn hash_then_verify_accepts_the_password() {
    let hashing = Hashing::new();
    let hash = hashing.hash_password("secret123").unwrap();
    assert_eq!(hash.len(), 60);
    assert_eq!(hashing.compare_password(&hash, "secret123"), Ok(()));
}

#[test]
fn different_password_is_rejected() {
    let hashing = Hashing::new();
    let hash = hashing.hash_password("secret123").unwrap();
    assert_eq!(hashing.compare_password(&hash, "secret124"), Err(AppError::InvalidCredentials));
    assert_eq!(hashing.compare_password(&hash, ""), Err(AppError::InvalidCredentials));
    assert_eq!(hashing.compare_password(&hash, "Secret123"), Err(AppError::InvalidCredentials));
}

#[test]
fn two_hashes_of_one_password_differ_but_both_verify() {
    let hashing = Hashing::new();
    let h1 = hashing.hash_password("secret123").unwrap();
    let h2 = hashing.hash_password("secret123").unwrap();
    assert_ne!(h1, h2);
    assert_eq!(hashing.compare_password(&h1, "secret123"), Ok(()));
    assert_eq!(hashing.compare_password(&h2, "secret123"), Ok(()));
}

#[test]
fn malformed_stored_hash_is_a_hashing_error() {
    let hashing = Hashing::new();
    let r = hashing.compare_password("not a bcrypt hash", "secret123");
    assert!(matches!(r, Err(AppError::HashingError(_))));
}
