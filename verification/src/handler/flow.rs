//! The vocabulary shared by the request handlers: what a handler asks its
//! caller to do next (an [`Action`]), what the caller reports back (an
//! [`Event`]), and the replies and cookies a handler ends with.
//!
//! Each handler is a state machine: `start` takes the request and gives the
//! first action, `resume` takes the outcome of that action and gives the
//! next one, until the action is [`Action::Respond`] or [`Action::Fail`].
//! Actions that touch the database inside the request's transaction open it
//! on first use; a failed request drops it, which rolls it back.

use vstd::prelude::*;
use crate::clock::UtcTime;
use crate::errors::{AppError, DbError, ErrorKind};
use crate::handler::auth::change_login::ChangeLoginResponse;
use crate::handler::auth::login::LoginResponse;
use crate::handler::auth::password::ChangePasswordResponse;
use crate::handler::auth::refresh::RefreshResponse;
use crate::handler::auth::register::RegisterResponse;
use crate::handler::users::login::LoginResponse as UsersLoginResponse;
use crate::handler::users::register::RegisterResponse as UsersRegisterResponse;
use crate::models::users::log::{IpAddress, LogEntry};
use crate::utils::session::token::REFRESH_TOKEN_TTL_DAYS;
use crate::clock::SECONDS_PER_DAY;

verus! {

broadcast use vstd::string::to_string_from_display_ensures_for_str;

/// A cookie to set on the response.
pub struct CookieSpec {
    pub name: String,
    pub value: String,
    pub path: String,
    pub http_only: bool,
    pub secure: bool,
    pub same_site_strict: bool,
    pub max_age_seconds: i64,
}

/// The refresh-token cookie: `refresh_token`, HTTP-only, secure, same-site
/// strict, scoped to `/auth`, holding `value` for `max_age` seconds.
pub open spec fn is_refresh_cookie(c: CookieSpec, value: Seq<char>, max_age: int) -> bool {
    &&& c.name@ == "refresh_token"@
    &&& c.value@ == value
    &&& c.path@ == "/auth"@
    &&& c.http_only
    &&& c.secure
    &&& c.same_site_strict
    &&& c.max_age_seconds == max_age
}

/// A refresh cookie that lives as long as a refresh token is kept by the
/// client for thirty days (2,592,000 seconds), HTTP-only, secure, same-site
/// strict and scoped to `/auth`.
pub proof fn law_refresh_cookie_lifetime(c: CookieSpec, value: Seq<char>)
    requires
        is_refresh_cookie(c, value, REFRESH_TOKEN_TTL_DAYS * SECONDS_PER_DAY),
    ensures
        c.max_age_seconds == 2_592_000,
        c.http_only && c.secure && c.same_site_strict,
        c.path@ == "/auth"@,
        c.name@ == "refresh_token"@,
        c.value@ == value,
{
}

/// The cookie that hands a refresh token to the client for the token's lifetime.
pub fn refresh_cookie(value: String) -> (c: CookieSpec)
    ensures
        is_refresh_cookie(c, value@, REFRESH_TOKEN_TTL_DAYS * SECONDS_PER_DAY),
{
    CookieSpec {
        name: "refresh_token".to_string(),
        value,
        path: "/auth".to_string(),
        http_only: true,
        secure: true,
        same_site_strict: true,
        max_age_seconds: REFRESH_TOKEN_TTL_DAYS * SECONDS_PER_DAY,
    }
}

/// The cookie that makes the client drop its refresh token: same name and
/// path, empty value, zero lifetime.
pub fn expired_refresh_cookie() -> (c: CookieSpec)
    ensures
        is_refresh_cookie(c, ""@, 0),
{
    CookieSpec {
        name: "refresh_token".to_string(),
        value: "".to_string(),
        path: "/auth".to_string(),
        http_only: true,
        secure: true,
        same_site_strict: true,
        max_age_seconds: 0,
    }
}

/// The successful answer of a handler.
#[allow(inconsistent_fields)]
pub enum Reply {
    /// 201, with the session cookie when a session could be opened.
    Registered { body: RegisterResponse, cookie: Option<CookieSpec> },
    /// 201.
    UsersRegistered { body: UsersRegisterResponse },
    /// 200, with the session cookie.
    LoggedIn { body: LoginResponse, cookie: CookieSpec },
    /// 200.
    UsersLoggedIn { body: UsersLoginResponse },
    /// 200, with the rotated session cookie.
    Refreshed { body: RefreshResponse, cookie: CookieSpec },
    /// 200, with the expired cookie.
    LoggedOut { cookie: CookieSpec },
    /// 200.
    PasswordChanged { body: ChangePasswordResponse },
    /// 204, with the expired cookie.
    UserDeleted { cookie: CookieSpec },
    /// 200.
    LoginChanged { body: ChangeLoginResponse },
}

/// The HTTP status of a reply.
pub open spec fn reply_status(r: Reply) -> u16 {
    match r {
        Reply::Registered { .. } => 201,
        Reply::UsersRegistered { .. } => 201,
        Reply::UserDeleted { .. } => 204,
        _ => 200,
    }
}

impl Reply {
    /// The HTTP status of this reply.
    pub fn status(&self) -> (s: u16)
        ensures
            s == reply_status(*self),
    {
        match self {
            Reply::Registered { .. } => 201,
            Reply::UsersRegistered { .. } => 201,
            Reply::UserDeleted { .. } => 204,
            _ => 200,
        }
    }
}

/// What a handler asks its caller to do next.
pub enum Action {
    /// Hash a password for storage.
    HashPassword { password: String },
    /// Check a password against a stored hash.
    VerifyPassword { password: String, hash: String },
    /// Insert a user (in the transaction), returning its id and login.
    InsertUser { email: String, password_hash: String, login: String },
    /// Grant the default `user` role (in the transaction), returning the role id if it exists.
    InsertDefaultRole { user_id: u128 },
    /// Insert an audit-log entry (in the transaction).
    InsertLog { entry: LogEntry },
    /// Commit the transaction.
    Commit,
    /// Open a session for a user, returning its raw refresh token.
    CreateSession { user_id: u128, ip_address: Option<IpAddress> },
    /// Issue an access token for a user and role.
    CreateAccessToken { user_id: u128, role: String },
    /// Find the id and password hash of the user with an e-mail address.
    FindCredentials { email: String },
    /// Find the role of a user.
    FindRole { user_id: u128 },
    /// Find the role of a user, joining the user row.
    FindUserRole { user_id: u128 },
    /// Find the password hash of a user (in the transaction), if the user exists.
    FindPasswordHash { user_id: u128 },
    /// Store a new password hash (in the transaction).
    UpdatePassword { user_id: u128, password_hash: String },
    /// Revoke every live session of a user (in the transaction).
    RevokeUserSessions { user_id: u128 },
    /// Delete a user (in the transaction), returning the number of rows deleted.
    DeleteUser { user_id: u128 },
    /// Change a user's login (in the transaction), returning the stored login if the user exists.
    UpdateLogin { user_id: u128, login: String },
    /// Find the live, unexpired session with a refresh-token hash (in the
    /// transaction), returning its id, user and role.
    FindSession { token_hash: String },
    /// Store a session's new refresh-token hash and expiry and mark it used (in the transaction).
    RotateSession { session_id: u128, token_hash: String, expires_at: UtcTime },
    /// Revoke the live session with a refresh-token hash.
    RevokeSession { token_hash: String },
    /// Answer the request.
    Respond { reply: Reply },
    /// Answer the request with an error.
    Fail { error: AppError },
}

/// What the caller reports back after performing an action.
pub enum Event {
    /// Outcome of `HashPassword`.
    Hashed(Result<String, AppError>),
    /// Outcome of `VerifyPassword`.
    Verified(Result<bool, AppError>),
    /// Outcome of a statement that returns nothing: `InsertLog`, `Commit`,
    /// `UpdatePassword`, `RevokeUserSessions`, `RotateSession`, `RevokeSession`.
    Done(Result<(), DbError>),
    /// Outcome of `InsertUser`: the new user's id and login.
    UserInserted(Result<(u128, String), DbError>),
    /// Outcome of `InsertDefaultRole`.
    RoleInserted(Result<Option<u128>, DbError>),
    /// Outcome of `FindCredentials`: the user's id and password hash.
    Credentials(Result<(u128, String), DbError>),
    /// Outcome of `FindRole` and `FindUserRole`.
    Role(Result<String, DbError>),
    /// Outcome of `FindPasswordHash`.
    PasswordHash(Result<Option<String>, DbError>),
    /// Outcome of `DeleteUser`: the number of rows deleted.
    Deleted(Result<u64, DbError>),
    /// Outcome of `UpdateLogin`.
    LoginUpdated(Result<Option<String>, DbError>),
    /// Outcome of `FindSession`: session id, user id and role.
    Session(Result<Option<(u128, u128, String)>, DbError>),
    /// Outcome of `CreateSession`: the raw refresh token.
    SessionCreated(Result<String, AppError>),
    /// Outcome of `CreateAccessToken`.
    TokenCreated(Result<String, AppError>),
}

/// `a` answers the request with an error whose view is `e`.
pub open spec fn fails_with(a: Action, e: (ErrorKind, Seq<char>)) -> bool {
    a matches Action::Fail { error } && error@ == e
}

/// The error a database failure is answered with.
pub fn db_fail(err: DbError) -> (a: Action)
    ensures
        fails_with(a, crate::errors::db_error_view(err)),
{
    Action::Fail { error: AppError::from_db_error(err) }
}

} // verus!
