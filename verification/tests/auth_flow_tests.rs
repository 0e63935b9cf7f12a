use example_sea_query::auth::AuthService;
use example_sea_query::directory::MemoryUserRepository;
use example_sea_query::errors::AppError;
use example_sea_query::gate::authorize_at;
use example_sea_query::hashing::Hashing;
use example_sea_query::request::LoginRequest;
use example_sea_query::request::RegisterRequest;
use example_sea_query::token::JwtConfig;

fn service() -> AuthService<MemoryUserRepository> {
    AuthService::new(MemoryUserRepository::new(), Hashing::new(), JwtConfig::new("a-test-secret"))
}

fn register_request(email: &str, password: &str) -> RegisterRequest {
    RegisterRequest {
        firstname: String::from("Ada"),
        lastname: String::from("Lovelace"),
        email: String::from(email),
        password: String::from(password),
    }
}

fn login_request(email: &str, password: &str) -> LoginRequest {
    LoginRequest { email: String::from(email), password: String::from(password) }
}

#[test]
fn register_succeeds_and_echoes_the_profile_without_password() {
    let mut auth = service();
    let resp = auth.register_user(&register_request("a@x.com", "secret123")).unwrap();
    assert_eq!(resp.status, "success");
    assert_eq!(resp.message, "User registered successfully");
    assert_eq!(resp.data.email, "a@x.com");
    assert_eq!(resp.data.firstname, "Ada");
    assert_eq!(resp.data.lastname, "Lovelace");
}

#[test]
fn registering_the_same_email_twice_fails_the_second_time() {
    let mut auth = service();
    assert!(auth.register_user(&register_request("a@x.com", "secret123")).is_ok());
    let second = auth.register_user(&register_request("a@x.com", "othersecret")).unwrap_err();
    assert_eq!(second.status, "error");
    assert_eq!(second.message, "Email already exists");
}

#[test]
fn login_with_the_right_password_yields_a_verifying_token() {
    let mut auth = service();
    auth.register_user(&register_request("a@x.com", "secret123")).unwrap();
    let resp = auth.login_user(&login_request("a@x.com", "secret123")).unwrap();
    assert_eq!(resp.status, "success");
    assert_eq!(resp.message, "Login successful");
    assert!(!resp.data.is_empty());
    let subject = auth.verify_token(&resp.data).unwrap();
    assert_eq!(subject, 1);
}

#[test]
fn login_with_a_wrong_password_is_invalid_credentials() {
    let mut auth = service();
    auth.register_user(&register_request("a@x.com", "secret123")).unwrap();
    let err = auth.login_user(&login_request("a@x.com", "wrong")).unwrap_err();
    assert_eq!(err.status, "error");
    assert_eq!(err.message, "Invalid credentials");
    assert_eq!(AppError::InvalidCredentials.http_status(), 401);
}

#[test]
fn login_with_an_unknown_email_reads_like_a_wrong_password() {
    let mut auth = service();
    auth.register_user(&register_request("a@x.com", "secret123")).unwrap();
    let wrong_password = auth.login_user(&login_request("a@x.com", "wrong")).unwrap_err();
    let unknown_email = auth.login_user(&login_request("b@x.com", "secret123")).unwrap_err();
    assert_eq!(wrong_password.status, unknown_email.status);
    assert_eq!(wrong_password.message, unknown_email.message);
}

#[test]
fn protected_route_scenario() {
    let jwt = JwtConfig::new("a-test-secret");
    let mut auth =
        AuthService::new(MemoryUserRepository::new(), Hashing::new(), JwtConfig::new("a-test-secret"));
    auth.register_user(&register_request("a@x.com", "secret123")).unwrap();
    let token = auth.login_user(&login_request("a@x.com", "secret123")).unwrap().data;

    let header = format!("Bearer {}", token);
    let now = 0;
    assert_eq!(authorize_at(&jwt, Some(&header), now), Ok(1));
    assert_eq!(example_sea_query::gate::authorize(&jwt, Some(&header)), Ok(1));

    assert_eq!(authorize_at(&jwt, None, now), Err(AppError::TokenInvalid));
    assert_eq!(AppError::TokenInvalid.http_status(), 401);

    let truncated = &header[..header.len() - 1];
    assert_eq!(authorize_at(&jwt, Some(truncated), now), Err(AppError::TokenInvalid));

    let not_bearer = format!("Basic {}", token);
    assert_eq!(authorize_at(&jwt, Some(&not_bearer), now), Err(AppError::TokenInvalid));

    assert_eq!(authorize_at(&jwt, Some(&token), now), Err(AppError::TokenInvalid));
}
