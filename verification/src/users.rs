//! The user service: profile management over the user directory.
//!
//! It wraps directory lookups and mutations in the uniform response
//! envelopes, classifying every directory failure before it leaves; a
//! newly created profile's password is hashed here, exactly as at
//! registration, so the plaintext never reaches the directory.

use vstd::prelude::*;

use crate::decimal::decimal_of;
use crate::decimal::i32_to_string;
use crate::directory::UserRepositoryTrait;
use crate::errors::AppError;
use crate::errors::repository_failure;
use crate::hashing::Hashing;
use crate::hashing::bcrypt_outcome;
use crate::model::UserView;
use crate::request::CreateUserRequest;
use crate::request::UpdateUserRequest;
use crate::response::ApiResponse;
use crate::response::ErrorResponse;
use crate::response::UserResponse;

verus! {

/// The user service over a user directory, with its own hashing boundary:
/// a profile's password arrives in plaintext and is hashed here, so the
/// plaintext never crosses into storage.
pub struct UserService<R: UserRepositoryTrait> {
    repository: R,
    hashing: Hashing,
}

impl<R: UserRepositoryTrait> UserService<R> {
    /// The directory contents as the service sees them.
    pub closed spec fn users(&self) -> Map<Seq<char>, UserView> {
        self.repository.users()
    }

    /// The hashing boundary is well formed.
    pub closed spec fn wf(&self) -> bool {
        self.hashing.wf()
    }

    /// A service over the given directory, hashing at the default work
    /// factor.
    pub fn new(repository: R) -> (r: Self)
        ensures
            r.users() == repository.users(),
            r.wf(),
    {
        UserService { repository, hashing: Hashing::new() }
    }

    /// Create a user record. An email the directory already holds is
    /// refused and nothing changes; otherwise the password is hashed and
    /// the directory gains exactly one record under the email, whose stored
    /// hash accepts the given password — never the password as it came.
    pub fn create_user(&mut self, input: &CreateUserRequest) -> (r: Result<
        ApiResponse<UserResponse>,
        ErrorResponse,
    >)
        requires
            old(self).wf(),
        ensures
            final(self).wf(),
            r matches Ok(resp) ==> ({
                &&& !old(self).users().contains_key(input.email@)
                &&& resp.status@ == "success"@
                &&& resp.message@ == "User created successfully"@
                &&& resp.data.email@ == input.email@
                &&& resp.data.firstname@ == input.firstname@
                &&& resp.data.lastname@ == input.lastname@
                &&& final(self).users().contains_key(input.email@)
                &&& final(self).users()[input.email@] == ((UserView {
                    id: resp.data.id as int,
                    firstname: input.firstname@,
                    lastname: input.lastname@,
                    email: input.email@,
                    password: final(self).users()[input.email@].password,
                }))
                &&& bcrypt_outcome(
                    final(self).users()[input.email@].password,
                    input.password@,
                ) == Some(true)
                &&& final(self).users()[input.email@].password.len() == 60
                &&& final(self).users() == old(self).users().insert(
                    input.email@,
                    final(self).users()[input.email@],
                )
            }),
            r is Err ==> final(self).users() == old(self).users(),
            old(self).users().contains_key(input.email@) ==> (r matches Err(e) && (e.message@
                == "Email already exists"@ || e.message@ == "Database error occurred"@)),
            r matches Err(e) ==> e.status@ == "error"@ && (e.message@ == "Email already exists"@
                || e.message@ == "Database error occurred"@ || e.message@
                == "Error during password hashing"@),
            r matches Err(e) && e.message@ == "Email already exists"@ ==> old(
                self,
            ).users().contains_key(input.email@),
    {
        proof {
            reveal_strlit("Email already exists");
            reveal_strlit("Database error occurred");
            reveal_strlit("Error during password hashing");
            assert("Email already exists"@.len() == 20);
            assert("Database error occurred"@.len() == 23);
            assert("Error during password hashing"@.len() == 29);
        }
        let exists = match self.repository.find_by_email_exists(input.email.as_str()) {
            Ok(b) => b,
            Err(e) => {
                return Err(ErrorResponse::from_app_error(repository_failure(e)));
            },
        };
        if exists {
            return Err(ErrorResponse::from_app_error(AppError::EmailAlreadyExists));
        }
        let hashed_password = match self.hashing.hash_password(input.password.as_str()) {
            Ok(h) => h,
            Err(e) => {
                return Err(ErrorResponse::from_app_error(e));
            },
        };
        let request = CreateUserRequest {
            firstname: input.firstname.clone(),
            lastname: input.lastname.clone(),
            email: input.email.clone(),
            password: hashed_password,
        };
        let created = match self.repository.create_user(&request) {
            Ok(u) => u,
            Err(e) => {
                return Err(ErrorResponse::from_app_error(repository_failure(e)));
            },
        };
        Ok(
            ApiResponse {
                status: String::from_str("success"),
                message: String::from_str("User created successfully"),
                data: UserResponse::from(created),
            },
        )
    }

    /// Whether a record is stored under the email, reported in a success
    /// envelope whose message matches the answer.
    pub fn find_by_email_exists(&self, email: &str) -> (r: Result<ApiResponse<bool>, ErrorResponse>)
        ensures
            r matches Ok(resp) ==> resp.data == self.users().contains_key(email@) && resp.status@
                == "success"@ && resp.message@ == (if resp.data {
                "User exists"@
            } else {
                "User does not exist"@
            }),
            r matches Err(e) ==> e.status@ == "error"@ && e.message@
                == "Database error occurred"@,
    {
        let exists = match self.repository.find_by_email_exists(email) {
            Ok(b) => b,
            Err(e) => {
                return Err(ErrorResponse::from_app_error(repository_failure(e)));
            },
        };
        let message = if exists {
            String::from_str("User exists")
        } else {
            String::from_str("User does not exist")
        };
        Ok(ApiResponse { status: String::from_str("success"), message, data: exists })
    }

    /// The profile stored under the email. A stored record is reported
    /// without its password hash; an absent email is a not-found failure
    /// naming the email.
    pub fn find_user_by_email(&self, email: &str) -> (r: Result<
        Option<ApiResponse<UserResponse>>,
        ErrorResponse,
    >)
        ensures
            r matches Ok(o) ==> (o matches Some(resp) && ({
                &&& self.users().contains_key(email@)
                &&& resp.status@ == "success"@
                &&& resp.message@ == "User retrieved successfully"@
                &&& resp.data.email@ == email@
                &&& resp.data.id as int == self.users()[email@].id
                &&& resp.data.firstname@ == self.users()[email@].firstname
                &&& resp.data.lastname@ == self.users()[email@].lastname
            })),
            !self.users().contains_key(email@) ==> (r matches Err(e) && (e.message@
                == "User with email "@ + email@ + " not found"@ || e.message@
                == "Database error occurred"@)),
            r matches Err(e) ==> e.message@ == "User with email "@ + email@ + " not found"@
                ==> !self.users().contains_key(email@),
            r matches Err(e) ==> e.status@ == "error"@,
    {
        let user = match self.repository.find_by_email(email) {
            Ok(Some(u)) => u,
            Ok(None) => {
                let message = String::from_str("User with email ").concat(email).concat(
                    " not found",
                );
                return Err(ErrorResponse::from_app_error(AppError::NotFound(message)));
            },
            Err(e) => {
                proof {
                    reveal_strlit("User with email ");
                    reveal_strlit("Database error occurred");
                    assert(("User with email "@ + email@ + " not found"@)[0] == 'U');
                    assert("Database error occurred"@[0] == 'D');
                }
                return Err(ErrorResponse::from_app_error(repository_failure(e)));
            },
        };
        Ok(
            Some(
                ApiResponse {
                    status: String::from_str("success"),
                    message: String::from_str("User retrieved successfully"),
                    data: UserResponse::from(user),
                },
            ),
        )
    }

    /// The profile stored under the identifier, reported without its
    /// password hash; an absent identifier is a not-found failure naming it.
    pub fn find_by_id(&self, id: i32) -> (r: Result<
        Option<ApiResponse<UserResponse>>,
        ErrorResponse,
    >)
        ensures
            r matches Ok(o) ==> (o matches Some(resp) && ({
                &&& resp.status@ == "success"@
                &&& resp.message@ == "User retrieved successfully"@
                &&& resp.data.id == id
                &&& self.users().contains_key(resp.data.email@)
                &&& self.users()[resp.data.email@] == ((UserView {
                    id: id as int,
                    firstname: resp.data.firstname@,
                    lastname: resp.data.lastname@,
                    email: resp.data.email@,
                    password: self.users()[resp.data.email@].password,
                }))
            })),
            r matches Err(e) ==> e.status@ == "error"@ && (e.message@ == "User with id "@
                + decimal_of(id) + " not found"@ || e.message@ == "Database error occurred"@),
            r matches Err(e) ==> e.message@ == "User with id "@ + decimal_of(id) + " not found"@
                ==> (forall|em: Seq<char>|
                self.users().contains_key(em) ==> self.users()[em].id != id as int),
    {
        let user = match self.repository.find_by_id(id) {
            Ok(Some(u)) => u,
            Ok(None) => {
                let message = String::from_str("User with id ").concat(
                    i32_to_string(id).as_str(),
                ).concat(" not found");
                return Err(ErrorResponse::from_app_error(AppError::NotFound(message)));
            },
            Err(e) => {
                proof {
                    reveal_strlit("User with id ");
                    reveal_strlit("Database error occurred");
                    assert(("User with id "@ + decimal_of(id) + " not found"@)[0] == 'U');
                    assert("Database error occurred"@[0] == 'D');
                }
                return Err(ErrorResponse::from_app_error(repository_failure(e)));
            },
        };
        Ok(
            Some(
                ApiResponse {
                    status: String::from_str("success"),
                    message: String::from_str("User retrieved successfully"),
                    data: UserResponse::from(user),
                },
            ),
        )
    }

    /// Update the record with the request's identifier. A request without
    /// an identifier is a validation failure before the directory is even
    /// asked; on success the updated record is stored under its email and
    /// reported without its password hash.
    pub fn update_user(&mut self, input: &UpdateUserRequest) -> (r: Result<
        Option<ApiResponse<UserResponse>>,
        ErrorResponse,
    >)
        ensures
            final(self).wf() == old(self).wf(),
            input.id is None ==> (r matches Err(e) && e.message@ == "Validation error"@),
            r matches Ok(o) ==> (o matches Some(resp) && ({
                &&& input.id matches Some(i) && resp.data.id == i
                &&& resp.status@ == "success"@
                &&& resp.message@ == "User updated successfully"@
                &&& final(self).users().contains_key(resp.data.email@)
                &&& final(self).users()[resp.data.email@] == ((UserView {
                    id: resp.data.id as int,
                    firstname: resp.data.firstname@,
                    lastname: resp.data.lastname@,
                    email: resp.data.email@,
                    password: final(self).users()[resp.data.email@].password,
                }))
                &&& exists|prior: Seq<char>|
                    {
                        &&& old(self).users().contains_key(prior)
                        &&& old(self).users()[prior].id == resp.data.id as int
                        &&& final(self).users() == old(self).users().remove(prior).insert(
                            resp.data.email@,
                            final(self).users()[resp.data.email@],
                        )
                    }
            })),
            r is Err ==> final(self).users() == old(self).users(),
            r matches Err(e) ==> e.status@ == "error"@ && (e.message@ == "Validation error"@
                || e.message@ == "Database error occurred"@),
    {
        if input.id.is_none() {
            return Err(
                ErrorResponse::from_app_error(
                    AppError::ValidationError(String::from_str("User ID is required")),
                ),
            );
        }
        let updated = match self.repository.update_user(input) {
            Ok(u) => u,
            Err(e) => {
                return Err(ErrorResponse::from_app_error(repository_failure(e)));
            },
        };
        proof {
            let uv = updated@;
            let p = choose|p: Seq<char>|
                {
                    &&& old(self).users().contains_key(p)
                    &&& old(self).users()[p].id == uv.id
                    &&& uv.password == old(self).users()[p].password
                    &&& self.users() == old(self).users().remove(p).insert(uv.email, uv)
                };
            assert(old(self).users().contains_key(p) && old(self).users()[p].id == uv.id
                && self.users() == old(self).users().remove(p).insert(uv.email, uv));
            assert(self.users()[uv.email] == uv);
        }
        Ok(
            Some(
                ApiResponse {
                    status: String::from_str("success"),
                    message: String::from_str("User updated successfully"),
                    data: UserResponse::from(updated),
                },
            ),
        )
    }

    /// Remove whatever is stored under the email; on success the directory
    /// holds nothing under it, whether or not it did before.
    pub fn delete_user(&mut self, email: &str) -> (r: Result<ApiResponse<()>, ErrorResponse>)
        ensures
            final(self).wf() == old(self).wf(),
            r matches Ok(resp) ==> final(self).users() == old(self).users().remove(email@)
                && resp.status@ == "success"@ && resp.message@ == "User deleted successfully"@,
            r is Err ==> final(self).users() == old(self).users(),
            r matches Err(e) ==> e.status@ == "error"@ && e.message@
                == "Database error occurred"@,
    {
        match self.repository.delete_user(email) {
            Ok(_) => {},
            Err(e) => {
                return Err(ErrorResponse::from_app_error(repository_failure(e)));
            },
        }
        Ok(
            ApiResponse {
                status: String::from_str("success"),
                message: String::from_str("User deleted successfully"),
                data: (),
            },
        )
    }
}

} // verus!
