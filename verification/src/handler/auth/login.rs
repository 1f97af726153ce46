//! `POST /api/auth/login`: check credentials, open a session and issue an
//! access token.

use vstd::prelude::*;
use crate::clock::SECONDS_PER_DAY;
use crate::errors::{AppError, ErrorKind, db_error_view};
use crate::handler::flow::{
    Action, Event, Reply, db_fail, fails_with, is_refresh_cookie, refresh_cookie,
};
use crate::models::users::log::IpAddress;
use crate::utils::session::token::REFRESH_TOKEN_TTL_DAYS;
use crate::utils::validators::email::{email_check, validate_email};

verus! {

broadcast use vstd::string::to_string_from_display_ensures_for_str;

/// The login form.
pub struct LoginRequest {
    pub email: String,
    pub password: String,
}

/// The answer to a successful login.
pub struct LoginResponse {
    pub user_id: u128,
    pub role: String,
    pub access_token: String,
}

/// The error of a wrong password (or of a hash the password does not match).
pub open spec fn bad_credentials() -> (ErrorKind, Seq<char>) {
    (ErrorKind::Unauthorized, "Invalid email or password"@)
}

/// Where a login stands.
pub enum LoginStage {
    FindingCredentials,
    Verifying,
    FindingRole,
    OpeningSession,
    IssuingToken,
    Done,
}

/// A login in progress.
pub struct Login {
    pub stage: LoginStage,
    pub password: String,
    pub ip_address: IpAddress,
    pub user_id: u128,
    pub role: String,
    pub refresh_token: String,
    /// Whether the password has been verified against the stored hash.
    pub verified: Ghost<bool>,
}

/// Past the password check, a login holds a verified password.
pub open spec fn login_invariant(f: Login) -> bool {
    (f.stage is FindingRole || f.stage is OpeningSession || f.stage is IssuingToken) ==> f.verified@
}

/// The events each stage waits for.
pub open spec fn login_expects(stage: LoginStage, event: Event) -> bool {
    match stage {
        LoginStage::FindingCredentials => event is Credentials,
        LoginStage::Verifying => event is Verified,
        LoginStage::FindingRole => event is Role,
        LoginStage::OpeningSession => event is SessionCreated,
        LoginStage::IssuingToken => event is TokenCreated,
        LoginStage::Done => false,
    }
}

impl Login {
    /// Takes a login from the client at `ip_address`: a malformed e-mail
    /// address is answered at once; otherwise the account is looked up.
    pub fn start(request: LoginRequest, ip_address: IpAddress) -> (r: (Login, Action))
        ensures
            login_invariant(r.0),
            !r.0.verified@,
            email_check(request.email@) matches Err(e) ==> (fails_with(r.1, e) && r.0.stage is Done),
            email_check(request.email@) is Ok ==> (r.1 matches Action::FindCredentials { email }
                && email@ == request.email@ && r.0.stage is FindingCredentials && r.0.password@
                == request.password@ && r.0.ip_address == ip_address),
    {
        let check = validate_email(request.email.as_str());
        let LoginRequest { email, password } = request;
        let stage = if check.is_ok() {
            LoginStage::FindingCredentials
        } else {
            LoginStage::Done
        };
        let flow = Login {
            stage,
            password,
            ip_address,
            user_id: 0,
            role: String::new(),
            refresh_token: String::new(),
            verified: Ghost(false),
        };
        match check {
            Err(error) => (flow, Action::Fail { error }),
            Ok(()) => (flow, Action::FindCredentials { email }),
        }
    }

    /// Advances the login with the outcome of its last action.
    pub fn resume(self, event: Event) -> (r: (Login, Action))
        requires
            login_expects(self.stage, event),
            login_invariant(self),
        ensures
            login_invariant(r.0),
            // A session, a token and a reply only ever follow a verified password.
            (r.1 is CreateSession || r.1 is CreateAccessToken || r.1 is Respond) ==> r.0.verified@,
            self.stage is FindingCredentials ==> (event matches Event::Credentials(res) && match res {
                Err(d) => fails_with(r.1, db_error_view(d)) && r.0.stage is Done,
                Ok((id, hash)) => r.1 matches Action::VerifyPassword { password, hash: h }
                    && password@ == self.password@ && h@ == hash@ && r.0.stage is Verifying
                    && r.0.user_id == id,
            }),
            // Only a verified password goes on; a wrong one ends the login.
            self.stage is Verifying ==> (event matches Event::Verified(res) && match res {
                Err(e) => fails_with(r.1, e@) && r.0.stage is Done,
                Ok(false) => fails_with(r.1, bad_credentials()) && r.0.stage is Done,
                Ok(true) => r.1 == (Action::FindRole { user_id: self.user_id })
                    && r.0.stage is FindingRole,
            }),
            self.stage is FindingRole ==> (event matches Event::Role(res) && match res {
                Err(d) => fails_with(r.1, db_error_view(d)) && r.0.stage is Done,
                Ok(role) => r.1 == (Action::CreateSession {
                    user_id: self.user_id,
                    ip_address: Some(self.ip_address),
                }) && r.0.stage is OpeningSession && r.0.role@ == role@,
            }),
            self.stage is OpeningSession ==> (event matches Event::SessionCreated(res) && match res {
                Err(e) => fails_with(r.1, e@) && r.0.stage is Done,
                Ok(t) => r.1 matches Action::CreateAccessToken { user_id, role } && user_id
                    == self.user_id && role@ == self.role@ && r.0.stage is IssuingToken
                    && r.0.refresh_token@ == t@,
            }),
            self.stage is IssuingToken ==> (event matches Event::TokenCreated(res) && match res {
                Err(e) => fails_with(r.1, e@) && r.0.stage is Done,
                Ok(a) => r.0.stage is Done && match r.1 {
                    Action::Respond { reply: Reply::LoggedIn { body, cookie } } => {
                        &&& body.user_id == self.user_id
                        &&& body.role@ == self.role@
                        &&& body.access_token@ == a@
                        &&& is_refresh_cookie(cookie, self.refresh_token@, REFRESH_TOKEN_TTL_DAYS * SECONDS_PER_DAY)
                    },
                    _ => false,
                },
            }),
            r.0.ip_address == self.ip_address,
            r.0.password@ == self.password@,
            !(self.stage is FindingCredentials) ==> r.0.user_id == self.user_id,
            !(self.stage is FindingRole) ==> r.0.role@ == self.role@,
            !(self.stage is OpeningSession) ==> r.0.refresh_token@ == self.refresh_token@,
    {
        let Login { stage, password, ip_address, user_id, role, refresh_token, verified } = self;
        match (stage, event) {
            (LoginStage::FindingCredentials, Event::Credentials(Ok((id, hash)))) => {
                let action = Action::VerifyPassword { password: password.clone(), hash };
                let stage = LoginStage::Verifying;
                (Login { stage, password, ip_address, user_id: id, role, refresh_token, verified }, action)
            },
            (LoginStage::FindingCredentials, Event::Credentials(Err(d))) => {
                let stage = LoginStage::Done;
                (Login { stage, password, ip_address, user_id, role, refresh_token, verified }, db_fail(d))
            },
            (LoginStage::Verifying, Event::Verified(Ok(valid))) => {
                if valid {
                    let verified = Ghost(true);
                    let stage = LoginStage::FindingRole;
                    (Login { stage, password, ip_address, user_id, role, refresh_token, verified }, Action::FindRole { user_id })
                } else {
                    let stage = LoginStage::Done;
                    let error = AppError::Unauthorized("Invalid email or password".to_string());
                    (Login { stage, password, ip_address, user_id, role, refresh_token, verified }, Action::Fail { error })
                }
            },
            (LoginStage::Verifying, Event::Verified(Err(error))) => {
                let stage = LoginStage::Done;
                (Login { stage, password, ip_address, user_id, role, refresh_token, verified }, Action::Fail { error })
            },
            (LoginStage::FindingRole, Event::Role(Ok(found))) => {
                let stage = LoginStage::OpeningSession;
                let action = Action::CreateSession { user_id, ip_address: Some(ip_address) };
                (Login { stage, password, ip_address, user_id, role: found, refresh_token, verified }, action)
            },
            (LoginStage::FindingRole, Event::Role(Err(d))) => {
                let stage = LoginStage::Done;
                (Login { stage, password, ip_address, user_id, role, refresh_token, verified }, db_fail(d))
            },
            (LoginStage::OpeningSession, Event::SessionCreated(Ok(t))) => {
                let stage = LoginStage::IssuingToken;
                let action = Action::CreateAccessToken { user_id, role: role.clone() };
                (Login { stage, password, ip_address, user_id, role, refresh_token: t, verified }, action)
            },
            (LoginStage::OpeningSession, Event::SessionCreated(Err(error))) => {
                let stage = LoginStage::Done;
                (Login { stage, password, ip_address, user_id, role, refresh_token, verified }, Action::Fail { error })
            },
            (LoginStage::IssuingToken, Event::TokenCreated(Ok(access_token))) => {
                let stage = LoginStage::Done;
                let body = LoginResponse { user_id, role: role.clone(), access_token };
                let cookie = refresh_cookie(refresh_token.clone());
                let action = Action::Respond { reply: Reply::LoggedIn { body, cookie } };
                (Login { stage, password, ip_address, user_id, role, refresh_token, verified }, action)
            },
            (LoginStage::IssuingToken, Event::TokenCreated(Err(error))) => {
                let stage = LoginStage::Done;
                (Login { stage, password, ip_address, user_id, role, refresh_token, verified }, Action::Fail { error })
            },
            (stage, _) => {
                proof {
                    assert(false);
                }
                (Login { stage, password, ip_address, user_id, role, refresh_token, verified }, Action::Commit)
            },
        }
    }
}

} // verus!
