//! The application-wide error type, its HTTP status and JSON body, and the
//! mapping from database failures.

use vstd::prelude::*;
use crate::encoding::{json_quote, json_string};
use crate::text::{contains_str, occurs_in};

verus! {

broadcast use vstd::string::to_string_from_display_ensures_for_str;

/// Application-wide error type.
///
/// Each variant carries a human-readable message and maps to a specific
/// HTTP status code when turned into a response (see [`AppError::into_response`]).
#[derive(Debug)]
pub enum AppError {
    NotFound(String),
    Conflict(String),
    Unauthorized(String),
    BadRequest(String),
    InternalError(String),
}

/// Which variant an [`AppError`] is, without its message.
#[derive(Debug, Clone, Copy, PartialEq, Eq, Structural)]
pub enum ErrorKind {
    NotFound,
    Conflict,
    Unauthorized,
    BadRequest,
    InternalError,
}

impl View for AppError {
    type V = (ErrorKind, Seq<char>);

    open spec fn view(&self) -> (ErrorKind, Seq<char>) {
        match self {
            AppError::NotFound(m) => (ErrorKind::NotFound, m@),
            AppError::Conflict(m) => (ErrorKind::Conflict, m@),
            AppError::Unauthorized(m) => (ErrorKind::Unauthorized, m@),
            AppError::BadRequest(m) => (ErrorKind::BadRequest, m@),
            AppError::InternalError(m) => (ErrorKind::InternalError, m@),
        }
    }
}

/// The HTTP status code that answers an error of the given kind.
pub open spec fn status_of(kind: ErrorKind) -> u16 {
    match kind {
        ErrorKind::NotFound => 404,
        ErrorKind::Conflict => 409,
        ErrorKind::Unauthorized => 401,
        ErrorKind::BadRequest => 400,
        ErrorKind::InternalError => 500,
    }
}

/// The JSON body `{"error":"<message>"}` sent with an error.
pub open spec fn error_body(message: Seq<char>) -> Seq<char> {
    "{\"error\":"@ + json_string(message) + "}"@
}

/// A `BadRequest` error with the given message, as a view.
pub open spec fn bad_request(message: Seq<char>) -> (ErrorKind, Seq<char>) {
    (ErrorKind::BadRequest, message)
}

/// The view of a check that either passes or fails with an error.
pub open spec fn check_view(r: Result<(), AppError>) -> Result<(), (ErrorKind, Seq<char>)> {
    match r {
        Ok(_) => Ok(()),
        Err(e) => Err(e@),
    }
}

/// A database failure, reduced to what the error mapping reads of it.
#[derive(Debug)]
pub enum DbError {
    /// A query that had to return a row returned none.
    RowNotFound,
    /// An error reported by the database server, with its message and
    /// whether it is a unique-constraint violation.
    Database { unique_violation: bool, message: String },
    /// Any other failure (connection, protocol, decoding, ...).
    Other,
}

/// What [`AppError::from_db_error`] answers to a database failure.
pub open spec fn db_error_view(err: DbError) -> (ErrorKind, Seq<char>) {
    match err {
        DbError::RowNotFound => (ErrorKind::NotFound, "Resource not found"@),
        DbError::Database { unique_violation, message } => {
            if unique_violation {
                if occurs_in("users_email_key"@, message@) {
                    (ErrorKind::Conflict, "Email already taken"@)
                } else if occurs_in("users_login_key"@, message@) {
                    (ErrorKind::Conflict, "Login already taken"@)
                } else {
                    (ErrorKind::Conflict, "Unique constraint violation"@)
                }
            } else {
                (ErrorKind::InternalError, "Database error"@)
            }
        },
        DbError::Other => (ErrorKind::InternalError, "Database error"@),
    }
}

/// Each kind of error answers with its own HTTP status, so the status tells
/// the kind back.
pub proof fn law_status_identifies_kind(a: ErrorKind, b: ErrorKind)
    requires
        status_of(a) == status_of(b),
    ensures
        a == b,
{
}

/// The statuses of the error kinds: 404 for a missing resource, 409 for a
/// conflict, 401 for a refused authentication, 400 for a bad request and 500
/// for an internal error.
pub proof fn law_status_codes(k: ErrorKind)
    ensures
        k == ErrorKind::NotFound <==> status_of(k) == 404,
        k == ErrorKind::Conflict <==> status_of(k) == 409,
        k == ErrorKind::Unauthorized <==> status_of(k) == 401,
        k == ErrorKind::BadRequest <==> status_of(k) == 400,
        k == ErrorKind::InternalError <==> status_of(k) == 500,
{
}

/// What a database failure is answered with: a missing row is a 404
/// "Resource not found", a unique violation a 409 conflict, and any other
/// failure a 500 "Database error".
pub proof fn law_db_error_answers(d: DbError)
    ensures
        d is RowNotFound ==> db_error_view(d) == (ErrorKind::NotFound, "Resource not found"@),
        d is Other ==> db_error_view(d) == (ErrorKind::InternalError, "Database error"@),
        d matches DbError::Database { unique_violation, .. } ==> if unique_violation {
            db_error_view(d).0 == ErrorKind::Conflict
        } else {
            db_error_view(d) == (ErrorKind::InternalError, "Database error"@)
        },
{
}

/// Every error answers with a 4xx or 5xx status.
pub proof fn law_error_status_is_an_error(k: ErrorKind)
    ensures
        400 <= status_of(k) <= 599,
{
}

/// The answer to a database failure does not reveal the database's message:
/// two failures of the same kind whose messages agree on naming the e-mail
/// and login constraints are answered alike.
pub proof fn law_db_message_hidden(unique_violation: bool, m1: String, m2: String)
    requires
        occurs_in("users_email_key"@, m1@) == occurs_in("users_email_key"@, m2@),
        occurs_in("users_login_key"@, m1@) == occurs_in("users_login_key"@, m2@),
    ensures
        db_error_view(DbError::Database { unique_violation, message: m1 }) == db_error_view(
            DbError::Database { unique_violation, message: m2 },
        ),
{
}

impl AppError {
    /// The variant of this error.
    pub fn kind(&self) -> (k: ErrorKind)
        ensures
            k == self@.0,
    {
        match self {
            AppError::NotFound(_) => ErrorKind::NotFound,
            AppError::Conflict(_) => ErrorKind::Conflict,
            AppError::Unauthorized(_) => ErrorKind::Unauthorized,
            AppError::BadRequest(_) => ErrorKind::BadRequest,
            AppError::InternalError(_) => ErrorKind::InternalError,
        }
    }

    /// The human-readable message of this error.
    pub fn message(&self) -> (m: &String)
        ensures
            m@ == self@.1,
    {
        match self {
            AppError::NotFound(m) => m,
            AppError::Conflict(m) => m,
            AppError::Unauthorized(m) => m,
            AppError::BadRequest(m) => m,
            AppError::InternalError(m) => m,
        }
    }

    /// The HTTP status code of this error.
    pub fn status_code(&self) -> (s: u16)
        ensures
            s == status_of(self@.0),
    {
        match self {
            AppError::NotFound(_) => 404,
            AppError::Conflict(_) => 409,
            AppError::Unauthorized(_) => 401,
            AppError::BadRequest(_) => 400,
            AppError::InternalError(_) => 500,
        }
    }

    /// Converts the error into an HTTP response: its status code and the JSON
    /// body `{"error":"<message>"}`.
    pub fn into_response(self) -> (r: (u16, String))
        ensures
            r.0 == status_of(self@.0),
            r.1@ == error_body(self@.1),
    {
        let status = self.status_code();
        let quoted = json_quote(self.message().as_str());
        let mut body = "{\"error\":".to_string();
        body.append(quoted.as_str());
        body.append("}");
        (status, body)
    }

    /// Converts a database failure into an [`AppError`], without leaking
    /// database internals to the client: a missing row is a `NotFound`, a
    /// unique violation is a `Conflict` naming the taken field when the
    /// constraint is the e-mail or login one, and anything else is an
    /// `InternalError`.
    pub fn from_db_error(err: DbError) -> (r: AppError)
        ensures
            r@ == db_error_view(err),
    {
        match err {
            DbError::RowNotFound => AppError::NotFound("Resource not found".to_string()),
            DbError::Database { unique_violation, message } => {
                if unique_violation {
                    if contains_str(message.as_str(), "users_email_key") {
                        AppError::Conflict("Email already taken".to_string())
                    } else if contains_str(message.as_str(), "users_login_key") {
                        AppError::Conflict("Login already taken".to_string())
                    } else {
                        AppError::Conflict("Unique constraint violation".to_string())
                    }
                } else {
                    AppError::InternalError("Database error".to_string())
                }
            },
            DbError::Other => AppError::InternalError("Database error".to_string()),
        }
    }
}

} // verus!
