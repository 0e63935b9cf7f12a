//! The error taxonomy of the library.
//!
//! Every failure of a collaborator is classified into one of these variants
//! before it leaves a service, and each variant maps to a fixed, non-leaking
//! user-visible message and an HTTP status code. Inner representations (the
//! text carried by `RepositoryError` or `HashingError`) never reach a caller.

use vstd::prelude::*;

verus! {

/// Classified failures of the authentication and resource layers.
#[derive(Debug, Clone, PartialEq, Eq)]
pub enum AppError {
    /// Registration was asked for an email that the directory already holds.
    EmailAlreadyExists,
    /// Login was refused: unknown email or wrong password, deliberately
    /// indistinguishable from the outside.
    InvalidCredentials,
    /// A looked-up record does not exist; carries the message shown to the caller.
    NotFound(String),
    /// A session token whose signature is valid but whose expiry has passed.
    TokenExpired,
    /// A session token that is malformed or whose signature does not match.
    TokenInvalid,
    /// The password-hashing layer failed internally.
    HashingError(String),
    /// A request was rejected before any collaborator was consulted.
    ValidationError(String),
    /// The persistence collaborator failed; the detail is kept internal.
    RepositoryError(String),
}

/// The fixed message that each error shows to a caller. `NotFound` is the one
/// variant whose message is chosen by the site that raised it.
pub open spec fn app_error_message(e: AppError) -> Seq<char> {
    match e {
        AppError::EmailAlreadyExists => "Email already exists"@,
        AppError::InvalidCredentials => "Invalid credentials"@,
        AppError::NotFound(m) => m@,
        AppError::TokenExpired => "Token has expired"@,
        AppError::TokenInvalid => "Token validation failed"@,
        AppError::HashingError(_) => "Error during password hashing"@,
        AppError::ValidationError(_) => "Validation error"@,
        AppError::RepositoryError(_) => "Database error occurred"@,
    }
}

/// The HTTP status behind which each error leaves the process: validation 400,
/// credential and token failures 401, missing records 404, conflicts 409,
/// internal failures 500.
pub open spec fn app_error_status(e: AppError) -> u16 {
    match e {
        AppError::EmailAlreadyExists => 409,
        AppError::InvalidCredentials => 401,
        AppError::NotFound(_) => 404,
        AppError::TokenExpired => 401,
        AppError::TokenInvalid => 401,
        AppError::HashingError(_) => 500,
        AppError::ValidationError(_) => 400,
        AppError::RepositoryError(_) => 500,
    }
}

/// Wrap a directory failure so that nothing of its inner representation
/// crosses a service boundary: whatever failed, the caller sees only a
/// repository error with its fixed message.
pub fn repository_failure(e: AppError) -> (r: AppError)
    ensures
        r matches AppError::RepositoryError(_),
{
    AppError::RepositoryError(e.message())
}

impl AppError {
    /// The user-visible message of this error.
    pub fn message(self) -> (r: String)
        ensures
            r@ == app_error_message(self),
    {
        match self {
            AppError::EmailAlreadyExists => String::from_str("Email already exists"),
            AppError::InvalidCredentials => String::from_str("Invalid credentials"),
            AppError::NotFound(m) => m,
            AppError::TokenExpired => String::from_str("Token has expired"),
            AppError::TokenInvalid => String::from_str("Token validation failed"),
            AppError::HashingError(_) => String::from_str("Error during password hashing"),
            AppError::ValidationError(_) => String::from_str("Validation error"),
            AppError::RepositoryError(_) => String::from_str("Database error occurred"),
        }
    }

    /// The HTTP status code under which this error is reported.
    pub fn http_status(&self) -> (r: u16)
        ensures
            r == app_error_status(*self),
    {
        match self {
            AppError::EmailAlreadyExists => 409,
            AppError::InvalidCredentials => 401,
            AppError::NotFound(_) => 404,
            AppError::TokenExpired => 401,
            AppError::TokenInvalid => 401,
            AppError::HashingError(_) => 500,
            AppError::ValidationError(_) => 400,
            AppError::RepositoryError(_) => 500,
        }
    }
}

} // verus!
