//! Authentication of requests by their `Authorization: Bearer <token>` header.

use vstd::prelude::*;
use crate::errors::{AppError, ErrorKind};
use crate::text::{starts_with, strip_prefix};
use crate::utils::session::token::Claims;

verus! {

broadcast use vstd::string::to_string_from_display_ensures_for_str;

/// The user a request is authenticated as.
pub struct AuthUser {
    pub user_id: u128,
    pub role: String,
}

/// The scheme prefix of a bearer `Authorization` header.
pub open spec fn bearer_prefix() -> Seq<char> {
    "Bearer "@
}

/// What a request's `Authorization` header (absent, or its text) yields: the
/// token after `Bearer `, or the 401 the API answers.
pub open spec fn bearer_outcome(header: Option<Seq<char>>) -> Result<Seq<char>, (ErrorKind, Seq<char>)> {
    match header {
        None => Err((ErrorKind::Unauthorized, "Missing Authorization header"@)),
        Some(h) => if starts_with(h, bearer_prefix()) {
            Ok(h.subrange(bearer_prefix().len() as int, h.len() as int))
        } else {
            Err((ErrorKind::Unauthorized, "Invalid Authorization header"@))
        },
    }
}

/// The view of an optional header.
pub open spec fn header_view(header: Option<&str>) -> Option<Seq<char>> {
    match header {
        None => None,
        Some(h) => Some(h@),
    }
}

/// Extracts the token of a bearer `Authorization` header. A missing header
/// (or one that is not visible ASCII) and a header of another scheme are
/// refused with a 401.
pub fn bearer_token(header: Option<&str>) -> (r: Result<&str, AppError>)
    ensures
        match r {
            Ok(t) => bearer_outcome(header_view(header)) == Ok::<Seq<char>, (ErrorKind, Seq<char>)>(t@),
            Err(e) => bearer_outcome(header_view(header)) == Err::<Seq<char>, (ErrorKind, Seq<char>)>(e@),
        },
{
    match header {
        None => Err(AppError::Unauthorized("Missing Authorization header".to_string())),
        Some(h) => match strip_prefix(h, "Bearer ") {
            Some(t) => Ok(t),
            None => Err(AppError::Unauthorized("Invalid Authorization header".to_string())),
        },
    }
}

/// The claims of a verified, unexpired access token, or the 401 for a token
/// that failed decoding, signature or expiry checks (`None`).
pub fn accept_claims(decoded: Option<Claims>) -> (r: Result<Claims, AppError>)
    ensures
        decoded is Some ==> (r matches Ok(c) && c == decoded->Some_0),
        decoded is None ==> (r matches Err(e) && e@ == (
            ErrorKind::Unauthorized,
            "Invalid or expired access token"@,
        )),
{
    match decoded {
        Some(c) => Ok(c),
        None => Err(AppError::Unauthorized("Invalid or expired access token".to_string())),
    }
}

impl AuthUser {
    /// The authenticated user named by access-token claims.
    pub fn from_claims(claims: Claims) -> (u: AuthUser)
        ensures
            u.user_id == claims.sub,
            u.role == claims.role,
    {
        AuthUser { user_id: claims.sub, role: claims.role }
    }
}

} // verus!
