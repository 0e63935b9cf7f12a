//! The hashing boundary: one-way, salted password hashing.
//!
//! The hash of a password is salted and therefore fresh on every call, so no
//! name can stand for it. What is deterministic — and what every contract
//! here is built on — is the comparison: `bcrypt_outcome` names what the
//! bcrypt check decides about a stored hash and a candidate password.

use vstd::prelude::*;

use crate::errors::AppError;

verus! {

/// What the bcrypt check decides about a stored hash and a password:
/// `None` when the stored hash is malformed, otherwise `Some(b)` with `b`
/// true exactly when the password matches the hash. The decision is a
/// function of the two strings alone.
pub uninterp spec fn bcrypt_outcome(hash: Seq<char>, password: Seq<char>) -> Option<bool>;

/// The work factor used for fresh password hashes.
pub const HASH_COST: u32 = 12;

/// Relies on bcrypt::hash: a freshly salted hash of the password at the
/// given cost. The crate's source shows the output is always 60 ASCII
/// characters and that bcrypt::verify accepts the password against it.
#[verifier::external_body]
fn bcrypt_hash(password: &str, cost: u32) -> (r: Result<String, String>)
    requires
        4 <= cost <= 31,
    ensures
        r matches Ok(h) ==> bcrypt_outcome(h@, password@) == Some(true) && h@.len() == 60,
{
    match bcrypt::hash(password, cost) {
        Ok(h) => Ok(h),
        Err(e) => Err(e.to_string()),
    }
}

/// Relies on bcrypt::verify: whether the password matches the stored hash;
/// errs exactly when the stored hash is malformed. Deterministic in its two
/// arguments, which is what `bcrypt_outcome` names.
#[verifier::external_body]
fn bcrypt_check(password: &str, hash: &str) -> (r: Result<bool, String>)
    ensures
        r matches Ok(b) ==> bcrypt_outcome(hash@, password@) == Some(b),
        r is Err ==> bcrypt_outcome(hash@, password@) is None,
{
    match bcrypt::verify(password, hash) {
        Ok(b) => Ok(b),
        Err(e) => Err(e.to_string()),
    }
}

/// The hashing boundary, carrying its work factor.
pub struct Hashing {
    cost: u32,
}

impl Hashing {
    /// The work factor lies in the range the algorithm admits.
    pub closed spec fn wf(&self) -> bool {
        4 <= self.cost <= 31
    }

    /// A hashing boundary at the default work factor.
    pub fn new() -> (r: Self)
        ensures
            r.wf(),
    {
        Hashing { cost: HASH_COST }
    }

    /// A hashing boundary at a chosen work factor, within the range the
    /// algorithm admits.
    pub fn with_cost(cost: u32) -> (r: Self)
        requires
            4 <= cost <= 31,
        ensures
            r.wf(),
    {
        Hashing { cost }
    }

    /// Hash a plaintext password. On success the result is a 60-character
    /// hash that the comparison below accepts against the same password;
    /// the plaintext itself is never part of the result.
    pub fn hash_password(&self, password: &str) -> (r: Result<String, AppError>)
        requires
            self.wf(),
        ensures
            r matches Ok(h) ==> bcrypt_outcome(h@, password@) == Some(true) && h@.len() == 60,
            r matches Err(e) ==> e matches AppError::HashingError(_),
    {
        match bcrypt_hash(password, self.cost) {
            Ok(h) => Ok(h),
            Err(m) => Err(AppError::HashingError(m)),
        }
    }

    /// Compare a stored hash against a candidate password. Returns `Ok`
    /// exactly when the password matches; a well-formed hash that does not
    /// match yields `InvalidCredentials`, a malformed stored hash yields
    /// `HashingError`. A mismatch is an ordinary result, never a panic.
    pub fn compare_password(&self, hash: &str, password: &str) -> (r: Result<(), AppError>)
        ensures
            r == Ok::<(), AppError>(()) <==> bcrypt_outcome(hash@, password@) == Some(true),
            bcrypt_outcome(hash@, password@) == Some(false) ==> r == Err::<(), AppError>(
                AppError::InvalidCredentials,
            ),
            bcrypt_outcome(hash@, password@) is None ==> (r matches Err(e)
                && e matches AppError::HashingError(_)),
    {
        match bcrypt_check(password, hash) {
            Ok(true) => Ok(()),
            Ok(false) => Err(AppError::InvalidCredentials),
            Err(m) => Err(AppError::HashingError(m)),
        }
    }
}

} // verus!
