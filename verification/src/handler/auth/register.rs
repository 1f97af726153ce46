//! `POST /api/auth/register`: create an account, record it in the audit log,
//! and open a first session when possible.

use vstd::prelude::*;
use crate::encoding::{json_quote, json_string};
use crate::errors::{AppError, ErrorKind, check_view, db_error_view};
use crate::handler::flow::{
    Action, Event, Reply, db_fail, fails_with, is_refresh_cookie, refresh_cookie,
};
use crate::models::users::enums::{LogAction, LogEntity};
use crate::models::users::log::{IpAddress, LogEntry};
use crate::utils::session::token::REFRESH_TOKEN_TTL_DAYS;
use crate::clock::SECONDS_PER_DAY;
use crate::utils::validators::email::{email_check, validate_email};
use crate::utils::validators::login::{login_check, validate_login};
use crate::utils::validators::password::{password_check, validate_password};

verus! {

broadcast use vstd::string::to_string_from_display_ensures_for_str;

/// The registration form.
pub struct RegisterRequest {
    pub email: String,
    pub password: String,
    pub login: String,
}

/// The answer to a registration. The access token is absent when no
/// session could be opened: the user then has to log in.
pub struct RegisterResponse {
    pub user_id: u128,
    pub login: String,
    pub access_token: Option<String>,
}

/// The outcome of checking a registration form: the e-mail address, then
/// the login, then the password; the first failure is reported.
pub open spec fn registration_check(email: Seq<char>, login: Seq<char>, password: Seq<char>) -> Result<
    (),
    (ErrorKind, Seq<char>),
> {
    match email_check(email) {
        Err(e) => Err(e),
        Ok(_) => match login_check(login) {
            Err(e) => Err(e),
            Ok(_) => password_check(password),
        },
    }
}

/// Checks a registration form (see [`registration_check`]).
pub fn validate_registration(email: &str, login: &str, password: &str) -> (r: Result<(), AppError>)
    ensures
        check_view(r) == registration_check(email@, login@, password@),
{
    validate_email(email)?;
    validate_login(login)?;
    validate_password(password)?;
    Ok(())
}

/// The audit-log values of a new account: `{"email":...,"login":...}`.
pub open spec fn registration_values(email: Seq<char>, login: Seq<char>) -> Seq<char> {
    "{\"email\":"@ + json_string(email) + ",\"login\":"@ + json_string(login) + "}"@
}

/// The JSON text of the audit-log values of a new account.
pub fn registration_values_json(email: &str, login: &str) -> (r: String)
    ensures
        r@ == registration_values(email@, login@),
{
    let mut r = "{\"email\":".to_string();
    r.append(json_quote(email).as_str());
    r.append(",\"login\":");
    r.append(json_quote(login).as_str());
    r.append("}");
    r
}

/// Where a registration stands.
pub enum RegisterStage {
    /// Waiting for the password hash.
    Hashing,
    /// Waiting for the user row.
    InsertingUser,
    /// Waiting for the default role grant.
    AssigningRole,
    /// Waiting for the audit-log insert.
    Logging,
    /// Waiting for the commit.
    Committing,
    /// Waiting for the session.
    OpeningSession,
    /// Waiting for the access token.
    IssuingToken,
    /// Answered.
    Done,
}

/// A registration in progress.
pub struct Register {
    pub stage: RegisterStage,
    pub email: String,
    pub login: String,
    pub ip_address: IpAddress,
    /// The id of the created user, once inserted.
    pub user_id: u128,
    /// The login the database stored, once inserted.
    pub stored_login: String,
    /// The raw refresh token of the opened session, once opened.
    pub refresh_token: String,
}

/// The audit-log entry of a new account.
pub open spec fn registration_entry(e: LogEntry, user_id: u128, ip: IpAddress, email: Seq<char>, login: Seq<char>) -> bool {
    &&& e.action_type == LogAction::Create
    &&& e.entity_type == LogEntity::User
    &&& e.user_id == Some(user_id)
    &&& e.entity_id == Some(user_id)
    &&& e.ip_address == Some(ip)
    &&& e.new_values matches Some(v) && v@ == registration_values(email, login)
    &&& e.old_values is None
    &&& e.error_message is None
}

/// The events each stage waits for.
pub open spec fn register_expects(stage: RegisterStage, event: Event) -> bool {
    match stage {
        RegisterStage::Hashing => event is Hashed,
        RegisterStage::InsertingUser => event is UserInserted,
        RegisterStage::AssigningRole => event is RoleInserted,
        RegisterStage::Logging => event is Done,
        RegisterStage::Committing => event is Done,
        RegisterStage::OpeningSession => event is SessionCreated,
        RegisterStage::IssuingToken => event is TokenCreated,
        RegisterStage::Done => false,
    }
}

/// `a` answers with the registration reply for a user, with an access token
/// and session cookie or without both.
pub open spec fn registered_reply(a: Action, user_id: u128, login: Seq<char>, tokens: Option<(Seq<char>, Seq<char>)>) -> bool {
    match a {
        Action::Respond { reply: Reply::Registered { body, cookie } } => {
            &&& body.user_id == user_id
            &&& body.login@ == login
            &&& match tokens {
                None => body.access_token is None && cookie is None,
                Some((access, refresh)) => {
                    &&& body.access_token is Some
                    &&& body.access_token->Some_0@ == access
                    &&& cookie is Some
                    &&& is_refresh_cookie(cookie->Some_0, refresh, REFRESH_TOKEN_TTL_DAYS * SECONDS_PER_DAY)
                },
            }
        },
        _ => false,
    }
}

impl Register {
    /// Takes a registration from the client at `ip_address`: a form that
    /// fails validation is answered at once with the validation error;
    /// otherwise the password is hashed first.
    pub fn start(request: RegisterRequest, ip_address: IpAddress) -> (r: (Register, Action))
        ensures
            registration_check(request.email@, request.login@, request.password@) matches Err(e) ==> (
            fails_with(r.1, e) && r.0.stage is Done),
            registration_check(request.email@, request.login@, request.password@) is Ok ==> (
            r.1 matches Action::HashPassword { password } && password@ == request.password@
                && r.0.stage is Hashing && r.0.email@ == request.email@ && r.0.login@
                == request.login@ && r.0.ip_address == ip_address),
    {
        let check = validate_registration(
            request.email.as_str(),
            request.login.as_str(),
            request.password.as_str(),
        );
        let RegisterRequest { email, password, login } = request;
        let stage = if check.is_ok() {
            RegisterStage::Hashing
        } else {
            RegisterStage::Done
        };
        let flow = Register {
            stage,
            email,
            login,
            ip_address,
            user_id: 0,
            stored_login: String::new(),
            refresh_token: String::new(),
        };
        match check {
            Err(error) => (flow, Action::Fail { error }),
            Ok(()) => (flow, Action::HashPassword { password }),
        }
    }

    /// Advances the registration with the outcome of its last action.
    pub fn resume(self, event: Event) -> (r: (Register, Action))
        requires
            register_expects(self.stage, event),
        ensures
            // Hashing: a failed hash is the answer; else the user is inserted.
            self.stage is Hashing ==> (event matches Event::Hashed(res) && match res {
                Err(e) => fails_with(r.1, e@) && r.0.stage is Done,
                Ok(h) => r.1 matches Action::InsertUser { email, password_hash, login } && email@
                    == self.email@ && password_hash@ == h@ && login@ == self.login@
                    && r.0.stage is InsertingUser,
            }),
            // Inserting the user: a database error is mapped; else the default role is granted.
            self.stage is InsertingUser ==> (event matches Event::UserInserted(res) && match res {
                Err(d) => fails_with(r.1, db_error_view(d)) && r.0.stage is Done,
                Ok((id, l)) => r.1 == (Action::InsertDefaultRole { user_id: id })
                    && r.0.stage is AssigningRole && r.0.user_id == id && r.0.stored_login@ == l@,
            }),
            // Granting the role: a missing default role is an internal error;
            // else the creation is logged.
            self.stage is AssigningRole ==> (event matches Event::RoleInserted(res) && match res {
                Err(d) => fails_with(r.1, db_error_view(d)) && r.0.stage is Done,
                Ok(None) => fails_with(
                    r.1,
                    (ErrorKind::InternalError, "Default role 'user' not found"@),
                ) && r.0.stage is Done,
                Ok(Some(_)) => r.1 matches Action::InsertLog { entry } && registration_entry(
                    entry,
                    self.user_id,
                    self.ip_address,
                    self.email@,
                    self.login@,
                ) && r.0.stage is Logging,
            }),
            self.stage is Logging ==> (event matches Event::Done(res) && match res {
                Err(d) => fails_with(r.1, db_error_view(d)) && r.0.stage is Done,
                Ok(_) => r.1 is Commit && r.0.stage is Committing,
            }),
            // After the commit the account exists; a session is then opened.
            self.stage is Committing ==> (event matches Event::Done(res) && match res {
                Err(d) => fails_with(r.1, db_error_view(d)) && r.0.stage is Done,
                Ok(_) => r.1 == (Action::CreateSession {
                    user_id: self.user_id,
                    ip_address: Some(self.ip_address),
                }) && r.0.stage is OpeningSession,
            }),
            // A session that cannot be opened still answers 201, without tokens.
            self.stage is OpeningSession ==> (event matches Event::SessionCreated(res) && match res {
                Err(_) => registered_reply(r.1, self.user_id, self.stored_login@, None)
                    && r.0.stage is Done,
                Ok(t) => r.1 matches Action::CreateAccessToken { user_id, role } && user_id
                    == self.user_id && role@ == "user"@ && r.0.stage is IssuingToken
                    && r.0.refresh_token@ == t@,
            }),
            self.stage is IssuingToken ==> (event matches Event::TokenCreated(res) && match res {
                Err(_) => registered_reply(r.1, self.user_id, self.stored_login@, None)
                    && r.0.stage is Done,
                Ok(a) => registered_reply(
                    r.1,
                    self.user_id,
                    self.stored_login@,
                    Some((a@, self.refresh_token@)),
                ) && r.0.stage is Done,
            }),
            // The request data is carried along unchanged.
            r.0.email@ == self.email@,
            r.0.login@ == self.login@,
            r.0.ip_address == self.ip_address,
            !(self.stage is InsertingUser) ==> r.0.user_id == self.user_id && r.0.stored_login@
                == self.stored_login@,
    {
        let Register { stage, email, login, ip_address, user_id, stored_login, refresh_token } =
            self;
        match stage {
            RegisterStage::Hashing => match event {
                Event::Hashed(Ok(hash)) => {
                    let action = Action::InsertUser {
                        email: email.clone(),
                        password_hash: hash,
                        login: login.clone(),
                    };
                    let stage = RegisterStage::InsertingUser;
                    (Register { stage, email, login, ip_address, user_id, stored_login, refresh_token }, action)
                },
                Event::Hashed(Err(error)) => {
                    let stage = RegisterStage::Done;
                    (Register { stage, email, login, ip_address, user_id, stored_login, refresh_token }, Action::Fail { error })
                },
                _ => {
                    proof { assert(false); }
                    (Register { stage, email, login, ip_address, user_id, stored_login, refresh_token }, Action::Commit)
                },
            },
            RegisterStage::InsertingUser => match event {
                Event::UserInserted(Ok((id, l))) => {
                    let stage = RegisterStage::AssigningRole;
                    let action = Action::InsertDefaultRole { user_id: id };
                    (Register { stage, email, login, ip_address, user_id: id, stored_login: l, refresh_token }, action)
                },
                Event::UserInserted(Err(d)) => {
                    let stage = RegisterStage::Done;
                    (Register { stage, email, login, ip_address, user_id, stored_login, refresh_token }, db_fail(d))
                },
                _ => {
                    proof { assert(false); }
                    (Register { stage, email, login, ip_address, user_id, stored_login, refresh_token }, Action::Commit)
                },
            },
            RegisterStage::AssigningRole => match event {
                Event::RoleInserted(Ok(Some(_))) => {
                    let values = registration_values_json(email.as_str(), login.as_str());
                    let entry = LogEntry::new(LogAction::Create, LogEntity::User)
                        .user_id(user_id)
                        .entity_id(user_id)
                        .ip_address(ip_address)
                        .new_values(values);
                    let stage = RegisterStage::Logging;
                    (Register { stage, email, login, ip_address, user_id, stored_login, refresh_token }, Action::InsertLog { entry })
                },
                Event::RoleInserted(Ok(None)) => {
                    let stage = RegisterStage::Done;
                    let error = AppError::InternalError("Default role 'user' not found".to_string());
                    (Register { stage, email, login, ip_address, user_id, stored_login, refresh_token }, Action::Fail { error })
                },
                Event::RoleInserted(Err(d)) => {
                    let stage = RegisterStage::Done;
                    (Register { stage, email, login, ip_address, user_id, stored_login, refresh_token }, db_fail(d))
                },
                _ => {
                    proof { assert(false); }
                    (Register { stage, email, login, ip_address, user_id, stored_login, refresh_token }, Action::Commit)
                },
            },
            RegisterStage::Logging => match event {
                Event::Done(Ok(())) => {
                    let stage = RegisterStage::Committing;
                    (Register { stage, email, login, ip_address, user_id, stored_login, refresh_token }, Action::Commit)
                },
                Event::Done(Err(d)) => {
                    let stage = RegisterStage::Done;
                    (Register { stage, email, login, ip_address, user_id, stored_login, refresh_token }, db_fail(d))
                },
                _ => {
                    proof { assert(false); }
                    (Register { stage, email, login, ip_address, user_id, stored_login, refresh_token }, Action::Commit)
                },
            },
            RegisterStage::Committing => match event {
                Event::Done(Ok(())) => {
                    let stage = RegisterStage::OpeningSession;
                    let action = Action::CreateSession { user_id, ip_address: Some(ip_address) };
                    (Register { stage, email, login, ip_address, user_id, stored_login, refresh_token }, action)
                },
                Event::Done(Err(d)) => {
                    let stage = RegisterStage::Done;
                    (Register { stage, email, login, ip_address, user_id, stored_login, refresh_token }, db_fail(d))
                },
                _ => {
                    proof { assert(false); }
                    (Register { stage, email, login, ip_address, user_id, stored_login, refresh_token }, Action::Commit)
                },
            },
            RegisterStage::OpeningSession => match event {
                Event::SessionCreated(Ok(t)) => {
                    let stage = RegisterStage::IssuingToken;
                    let action = Action::CreateAccessToken { user_id, role: "user".to_string() };
                    (Register { stage, email, login, ip_address, user_id, stored_login, refresh_token: t }, action)
                },
                Event::SessionCreated(Err(_)) => {
                    let stage = RegisterStage::Done;
                    let body = RegisterResponse { user_id, login: stored_login.clone(), access_token: None };
                    let action = Action::Respond { reply: Reply::Registered { body, cookie: None } };
                    (Register { stage, email, login, ip_address, user_id, stored_login, refresh_token }, action)
                },
                _ => {
                    proof { assert(false); }
                    (Register { stage, email, login, ip_address, user_id, stored_login, refresh_token }, Action::Commit)
                },
            },
            RegisterStage::IssuingToken => match event {
                Event::TokenCreated(Ok(token)) => {
                    let stage = RegisterStage::Done;
                    let body = RegisterResponse {
                        user_id,
                        login: stored_login.clone(),
                        access_token: Some(token),
                    };
                    let cookie = Some(refresh_cookie(refresh_token.clone()));
                    let action = Action::Respond { reply: Reply::Registered { body, cookie } };
                    (Register { stage, email, login, ip_address, user_id, stored_login, refresh_token }, action)
                },
                Event::TokenCreated(Err(_)) => {
                    let stage = RegisterStage::Done;
                    let body = RegisterResponse { user_id, login: stored_login.clone(), access_token: None };
                    let action = Action::Respond { reply: Reply::Registered { body, cookie: None } };
                    (Register { stage, email, login, ip_address, user_id, stored_login, refresh_token }, action)
                },
                _ => {
                    proof { assert(false); }
                    (Register { stage, email, login, ip_address, user_id, stored_login, refresh_token }, Action::Commit)
                },
            },
            RegisterStage::Done => {
                proof { assert(false); }
                (Register { stage, email, login, ip_address, user_id, stored_login, refresh_token }, Action::Commit)
            },
        }
    }
}

} // verus!
