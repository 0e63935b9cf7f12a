//! The request gate: token enforcement in front of protected handlers.
//!
//! A protected request is judged once, from its `Authorization` header
//! alone: no header, or one that is not a bearer token, is rejected as
//! `TokenInvalid`; otherwise the carried token is verified by the codec.
//! `gate_decision` pins the whole decision, so the transport layer around it
//! has nothing left to decide but the status code.

use vstd::prelude::*;

use vstd::string::StrSliceExecFns;

use crate::errors::AppError;
use crate::token::JwtConfig;
use crate::token::jwt_claims;
use crate::token::token_decision;

verus! {

/// The token carried by an `Authorization` header value: the rest of the
/// value after a literal `Bearer ` prefix, if the prefix is there.
pub open spec fn bearer_of(h: Seq<char>) -> Option<Seq<char>> {
    if h.len() >= 7 && h.subrange(0, 7) == "Bearer "@ {
        Some(h.subrange(7, h.len() as int))
    } else {
        None
    }
}

/// An optional header value as a sequence of characters.
pub open spec fn header_view(h: Option<&str>) -> Option<Seq<char>> {
    match h {
        Some(s) => Some(s@),
        None => None,
    }
}

/// The decision for a protected request: no header, or no bearer token,
/// is `TokenInvalid`; otherwise the carried token's outcome at `now`.
pub open spec fn gate_decision(secret: Seq<char>, header: Option<Seq<char>>, now: i64) -> Result<
    i64,
    AppError,
> {
    match header {
        Option::None => Result::Err(AppError::TokenInvalid),
        Option::Some(h) => match bearer_of(h) {
            Option::None => Result::Err(AppError::TokenInvalid),
            Option::Some(t) => token_decision(secret, t, now),
        },
    }
}

/// Extract the bearer token from an `Authorization` header value: exactly
/// `bearer_of` of the value.
pub fn bearer_token(header: &str) -> (r: Option<&str>)
    ensures
        match r {
            Some(t) => bearer_of(header@) == Some(t@),
            None => bearer_of(header@) is None,
        },
{
    proof {
        reveal_strlit("Bearer ");
    }
    let n = header.unicode_len();
    if n < 7 {
        return None;
    }
    let prefix = "Bearer ";
    let mut i: usize = 0;
    while i < 7
        invariant
            i <= 7,
            n == header@.len(),
            n >= 7,
            prefix@ == "Bearer "@,
            "Bearer "@.len() == 7,
            forall|j: int| 0 <= j < i ==> header@[j] == "Bearer "@[j],
        decreases 7 - i,
    {
        if header.get_char(i) != prefix.get_char(i) {
            proof {
                assert(header@.subrange(0, 7)[i as int] == header@[i as int]);
            }
            return None;
        }
        i = i + 1;
    }
    proof {
        assert(header@.subrange(0, 7) =~= "Bearer "@);
    }
    let rest = header.substring_char(7, n);
    Some(rest)
}

/// Judge a request's `Authorization` header against the codec's secret as
/// of the given second; the result is exactly `gate_decision`.
pub fn authorize_at(jwt: &JwtConfig, header: Option<&str>, now: i64) -> (r: Result<i64, AppError>)
    ensures
        r == gate_decision(jwt.secret_view(), header_view(header), now),
{
    match header {
        None => Err(AppError::TokenInvalid),
        Some(h) => match bearer_token(h) {
            None => Err(AppError::TokenInvalid),
            Some(t) => jwt.verify_token_at(t, now),
        },
    }
}

/// Judge a request's `Authorization` header as of the current clock
/// reading. Whatever second the clock returns: a missing header, a
/// non-bearer header, and a token that does not decode fail as
/// `TokenInvalid` — and only those do; a decoded token either admits the
/// request with its subject or fails as `TokenExpired`.
pub fn authorize(jwt: &JwtConfig, header: Option<&str>) -> (r: Result<i64, AppError>)
    ensures
        r matches Ok(s) ==> (header_view(header) matches Some(h) && bearer_of(h) matches Some(t)
            && jwt_claims(jwt.secret_view(), t) matches Some(c) && c.0 == s),
        r is Err ==> (r == Err::<i64, AppError>(AppError::TokenInvalid) || r == Err::<
            i64,
            AppError,
        >(AppError::TokenExpired)),
        header_view(header) is None ==> r == Err::<i64, AppError>(AppError::TokenInvalid),
        header_view(header) matches Some(h) ==> bearer_of(h) is None ==> r == Err::<
            i64,
            AppError,
        >(AppError::TokenInvalid),
        header_view(header) matches Some(h) ==> bearer_of(h) matches Some(t) ==> jwt_claims(
            jwt.secret_view(),
            t,
        ) is None ==> r == Err::<i64, AppError>(AppError::TokenInvalid),
        header_view(header) matches Some(h) ==> bearer_of(h) matches Some(t) ==> jwt_claims(
            jwt.secret_view(),
            t,
        ) matches Some(c) ==> (r == Ok::<i64, AppError>(c.0) || r == Err::<i64, AppError>(
            AppError::TokenExpired,
        )),
{
    match header {
        None => Err(AppError::TokenInvalid),
        Some(h) => match bearer_token(h) {
            None => Err(AppError::TokenInvalid),
            Some(t) => jwt.verify_token(t),
        },
    }
}

} // verus!
