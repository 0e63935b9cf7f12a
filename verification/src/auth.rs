//! The authentication service: registration, login, token verification.
//!
//! Each operation is a single transition against the user directory. Nothing
//! is retried, every collaborator failure is classified before it leaves the
//! service, and login answers exactly alike for an unknown email and a wrong
//! password, so a caller cannot probe which emails exist.

use vstd::prelude::*;

use crate::directory::UserRepositoryTrait;
use crate::errors::AppError;
use crate::errors::repository_failure;
use crate::hashing::Hashing;
use crate::hashing::bcrypt_outcome;
use crate::model::UserView;
use crate::request::CreateUserRequest;
use crate::request::LoginRequest;
use crate::request::RegisterRequest;
use crate::response::ApiResponse;
use crate::response::ErrorResponse;
use crate::response::UserResponse;
use crate::token::JwtConfig;
use crate::token::jwt_claims;

verus! {

/// The authentication service over a user directory, a hashing boundary,
/// and a token codec.
pub struct AuthService<R: UserRepositoryTrait> {
    repository: R,
    hashing: Hashing,
    jwt_config: JwtConfig,
}

impl<R: UserRepositoryTrait> AuthService<R> {
    /// The hashing boundary and the token codec are well formed.
    pub closed spec fn wf(&self) -> bool {
        self.hashing.wf() && self.jwt_config.wf()
    }

    /// The directory contents as the service sees them.
    pub closed spec fn users(&self) -> Map<Seq<char>, UserView> {
        self.repository.users()
    }

    /// The signing secret of the service's token codec.
    pub closed spec fn secret(&self) -> Seq<char> {
        self.jwt_config.secret_view()
    }

    /// A service over the given collaborators.
    pub fn new(repository: R, hashing: Hashing, jwt_config: JwtConfig) -> (r: Self)
        ensures
            r.users() == repository.users(),
            r.secret() == jwt_config.secret_view(),
            hashing.wf() && jwt_config.wf() ==> r.wf(),
    {
        AuthService { repository, hashing, jwt_config }
    }

    /// Register a credential. An email the directory already holds is
    /// refused as a conflict and nothing changes; otherwise the password is
    /// hashed and the directory gains exactly one record under the email,
    /// whose stored hash accepts the given password and nothing of which is
    /// echoed back but the profile. Errors carry only fixed messages.
    pub fn register_user(&mut self, input: &RegisterRequest) -> (r: Result<
        ApiResponse<UserResponse>,
        ErrorResponse,
    >)
        requires
            old(self).wf(),
        ensures
            final(self).wf(),
            final(self).secret() == old(self).secret(),
            r matches Ok(resp) ==> ({
                &&& !old(self).users().contains_key(input.email@)
                &&& resp.status@ == "success"@
                &&& resp.message@ == "User registered successfully"@
                &&& resp.data.email@ == input.email@
                &&& resp.data.firstname@ == input.firstname@
                &&& resp.data.lastname@ == input.lastname@
                &&& final(self).users().contains_key(input.email@)
                &&& final(self).users()[input.email@] == ((UserView {
                    id: resp.data.id as int,
                    firstname: input.firstname@,
                    lastname: input.lastname@,
                    email: input.email@,
                    password: final(self).users()[input.email@].password,
                }))
                &&& bcrypt_outcome(
                    final(self).users()[input.email@].password,
                    input.password@,
                ) == Some(true)
                &&& final(self).users()[input.email@].password.len() == 60
                &&& final(self).users() == old(self).users().insert(
                    input.email@,
                    final(self).users()[input.email@],
                )
            }),
            r is Err ==> final(self).users() == old(self).users(),
            r matches Err(e) ==> e.status@ == "error"@ && (e.message@ == "Email already exists"@
                || e.message@ == "Database error occurred"@ || e.message@
                == "Error during password hashing"@),
            r matches Err(e) && e.message@ == "Email already exists"@ ==> old(
                self,
            ).users().contains_key(input.email@),
            old(self).users().contains_key(input.email@) ==> (r matches Err(e) && (e.message@
                == "Email already exists"@ || e.message@ == "Database error occurred"@)),
    {
        proof {
            reveal_strlit("Email already exists");
            reveal_strlit("Database error occurred");
            reveal_strlit("Error during password hashing");
        }
        let exists = match self.repository.find_by_email_exists(input.email.as_str()) {
            Ok(b) => b,
            Err(e) => {
                return Err(ErrorResponse::from_app_error(repository_failure(e)));
            },
        };
        if exists {
            return Err(ErrorResponse::from_app_error(AppError::EmailAlreadyExists));
        }
        let hashed_password = match self.hashing.hash_password(input.password.as_str()) {
            Ok(h) => h,
            Err(e) => {
                return Err(ErrorResponse::from_app_error(e));
            },
        };
        let request = CreateUserRequest {
            firstname: input.firstname.clone(),
            lastname: input.lastname.clone(),
            email: input.email.clone(),
            password: hashed_password,
        };
        let created = match self.repository.create_user(&request) {
            Ok(u) => u,
            Err(e) => {
                return Err(ErrorResponse::from_app_error(repository_failure(e)));
            },
        };
        Ok(
            ApiResponse {
                status: String::from_str("success"),
                message: String::from_str("User registered successfully"),
                data: UserResponse::from(created),
            },
        )
    }

    /// Log a credential in. Success means the email is stored and its hash
    /// accepts the password — and a stored, matching credential is only
    /// ever turned away by a directory failure, never as bad credentials.
    /// The answer is then a non-empty token whose claims carry the stored
    /// identifier and one lifetime ahead of their issue second. An unknown
    /// email and a wrong password are rejected with one and the same
    /// message, so neither reveals whether the email exists.
    pub fn login_user(&self, input: &LoginRequest) -> (r: Result<ApiResponse<String>, ErrorResponse>)
        requires
            self.wf(),
        ensures
            r matches Ok(resp) ==> ({
                &&& self.users().contains_key(input.email@)
                &&& bcrypt_outcome(self.users()[input.email@].password, input.password@) == Some(
                    true,
                )
                &&& resp.status@ == "success"@
                &&& resp.message@ == "Login successful"@
                &&& resp.data@.len() > 0
                &&& (jwt_claims(self.secret(), resp.data@) matches Some(c) && c.0 as int
                    == self.users()[input.email@].id && c.1 < c.2)
            }),
            r matches Err(e) ==> e.status@ == "error"@ && (e.message@ == "Invalid credentials"@
                || e.message@ == "Database error occurred"@),
            r matches Err(e) ==> e.message@ == "Invalid credentials"@
                ==> (!self.users().contains_key(input.email@) || bcrypt_outcome(
                self.users()[input.email@].password,
                input.password@,
            ) != Some(true)),
            self.users().contains_key(input.email@) && bcrypt_outcome(
                self.users()[input.email@].password,
                input.password@,
            ) == Some(true) ==> (r is Ok || (r matches Err(e) && e.message@
                == "Database error occurred"@)),
            !self.users().contains_key(input.email@) ==> (r matches Err(e) && (e.message@
                == "Invalid credentials"@ || e.message@ == "Database error occurred"@)),
            self.users().contains_key(input.email@) && bcrypt_outcome(
                self.users()[input.email@].password,
                input.password@,
            ) != Some(true) ==> (r matches Err(e) && (e.message@ == "Invalid credentials"@
                || e.message@ == "Database error occurred"@)),
    {
        proof {
            reveal_strlit("Invalid credentials");
            reveal_strlit("Database error occurred");
            assert("Invalid credentials"@.len() == 19);
            assert("Database error occurred"@.len() == 23);
        }
        let user = match self.repository.find_by_email(input.email.as_str()) {
            Ok(Some(u)) => u,
            Ok(None) => {
                return Err(ErrorResponse::from_app_error(AppError::InvalidCredentials));
            },
            Err(e) => {
                return Err(ErrorResponse::from_app_error(repository_failure(e)));
            },
        };
        match self.hashing.compare_password(user.password.as_str(), input.password.as_str()) {
            Ok(_) => {},
            Err(_) => {
                return Err(ErrorResponse::from_app_error(AppError::InvalidCredentials));
            },
        }
        proof {
            assert(bcrypt_outcome(user@.password, input.password@) == Some(true));
            assert(user@ == self.users()[input.email@]);
            assert(bcrypt_outcome(self.users()[input.email@].password, input.password@) == Some(
                true,
            ));
        }
        let token = match self.jwt_config.generate_token(user.id as i64) {
            Ok(t) => t,
            Err(e) => {
                return Err(ErrorResponse::from_app_error(e));
            },
        };
        Ok(
            ApiResponse {
                status: String::from_str("success"),
                message: String::from_str("Login successful"),
                data: token,
            },
        )
    }

    /// Verify a session token against the service's secret as of the
    /// current clock reading: pure delegation to the token codec.
    pub fn verify_token(&self, token: &str) -> (r: Result<i64, AppError>)
        ensures
            r matches Ok(s) ==> (jwt_claims(self.secret(), token@) matches Some(c) && c.0 == s),
            r == Err::<i64, AppError>(AppError::TokenInvalid) <==> jwt_claims(
                self.secret(),
                token@,
            ) is None,
            jwt_claims(self.secret(), token@) matches Some(c) ==> (r == Ok::<i64, AppError>(c.0)
                || r == Err::<i64, AppError>(AppError::TokenExpired)),
    {
        self.jwt_config.verify_token(token)
    }
}

} // verus!
