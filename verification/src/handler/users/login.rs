//! `GET /login` of the `users` routes: check credentials and answer with the
//! user's id and role, without opening a session.

use vstd::prelude::*;
use crate::errors::{AppError, db_error_view};
use crate::handler::auth::login::bad_credentials;
use crate::handler::flow::{Action, Event, Reply, db_fail, fails_with};
use crate::utils::validators::email::{email_check, validate_email};

verus! {

broadcast use vstd::string::to_string_from_display_ensures_for_str;

/// The login form.
pub struct LoginRequest {
    pub email: String,
    pub password: String,
}

/// The user's id and role.
pub struct LoginResponse {
    pub user_id: u128,
    pub role: String,
}

/// Where a login stands.
pub enum LoginStage {
    FindingCredentials,
    Verifying,
    FindingRole,
    Done,
}

/// A login in progress.
pub struct Login {
    pub stage: LoginStage,
    pub password: String,
    pub user_id: u128,
    /// Whether the password has been verified against the stored hash.
    pub verified: Ghost<bool>,
}

/// Past the password check, a login holds a verified password.
pub open spec fn login_invariant(f: Login) -> bool {
    f.stage is FindingRole ==> f.verified@
}

/// The events each stage waits for.
pub open spec fn login_expects(stage: LoginStage, event: Event) -> bool {
    match stage {
        LoginStage::FindingCredentials => event is Credentials,
        LoginStage::Verifying => event is Verified,
        LoginStage::FindingRole => event is Role,
        LoginStage::Done => false,
    }
}

impl Login {
    /// Takes a login: a malformed e-mail address is answered at once;
    /// otherwise the account is looked up.
    pub fn start(request: LoginRequest) -> (r: (Login, Action))
        ensures
            login_invariant(r.0),
            !r.0.verified@,
            email_check(request.email@) matches Err(e) ==> (fails_with(r.1, e) && r.0.stage is Done),
            email_check(request.email@) is Ok ==> (r.1 matches Action::FindCredentials { email }
                && email@ == request.email@ && r.0.stage is FindingCredentials && r.0.password@
                == request.password@),
    {
        let check = validate_email(request.email.as_str());
        let LoginRequest { email, password } = request;
        match check {
            Err(error) => {
                let stage = LoginStage::Done;
                (Login { stage, password, user_id: 0, verified: Ghost(false) }, Action::Fail { error })
            },
            Ok(()) => {
                let stage = LoginStage::FindingCredentials;
                (Login { stage, password, user_id: 0, verified: Ghost(false) }, Action::FindCredentials { email })
            },
        }
    }

    /// Advances the login with the outcome of its last action.
    pub fn resume(self, event: Event) -> (r: (Login, Action))
        requires
            login_expects(self.stage, event),
            login_invariant(self),
        ensures
            login_invariant(r.0),
            // The user's role is only looked up and answered for a verified password.
            (r.1 is FindUserRole || r.1 is Respond) ==> r.0.verified@,
            self.stage is FindingCredentials ==> (event matches Event::Credentials(res) && match res {
                Err(d) => fails_with(r.1, db_error_view(d)) && r.0.stage is Done,
                Ok((id, hash)) => r.1 matches Action::VerifyPassword { password, hash: h }
                    && password@ == self.password@ && h@ == hash@ && r.0.stage is Verifying
                    && r.0.user_id == id,
            }),
            self.stage is Verifying ==> (event matches Event::Verified(res) && match res {
                Err(e) => fails_with(r.1, e@) && r.0.stage is Done,
                Ok(false) => fails_with(r.1, bad_credentials()) && r.0.stage is Done,
                Ok(true) => r.1 == (Action::FindUserRole { user_id: self.user_id })
                    && r.0.stage is FindingRole,
            }),
            self.stage is FindingRole ==> (event matches Event::Role(res) && match res {
                Err(d) => fails_with(r.1, db_error_view(d)) && r.0.stage is Done,
                Ok(role) => r.0.stage is Done && (r.1 matches Action::Respond {
                    reply: Reply::UsersLoggedIn { body },
                } && body.user_id == self.user_id && body.role@ == role@),
            }),
            r.0.password@ == self.password@,
            !(self.stage is FindingCredentials) ==> r.0.user_id == self.user_id,
    {
        let Login { stage, password, user_id, verified } = self;
        match (stage, event) {
            (LoginStage::FindingCredentials, Event::Credentials(Ok((id, hash)))) => {
                let action = Action::VerifyPassword { password: password.clone(), hash };
                (Login { stage: LoginStage::Verifying, password, user_id: id, verified }, action)
            },
            (LoginStage::FindingCredentials, Event::Credentials(Err(d))) => {
                (Login { stage: LoginStage::Done, password, user_id, verified }, db_fail(d))
            },
            (LoginStage::Verifying, Event::Verified(Ok(valid))) => {
                if valid {
                    let verified = Ghost(true);
                    (Login { stage: LoginStage::FindingRole, password, user_id, verified }, Action::FindUserRole { user_id })
                } else {
                    let error = AppError::Unauthorized("Invalid email or password".to_string());
                    (Login { stage: LoginStage::Done, password, user_id, verified }, Action::Fail { error })
                }
            },
            (LoginStage::Verifying, Event::Verified(Err(error))) => {
                (Login { stage: LoginStage::Done, password, user_id, verified }, Action::Fail { error })
            },
            (LoginStage::FindingRole, Event::Role(Ok(role))) => {
                let body = LoginResponse { user_id, role };
                let action = Action::Respond { reply: Reply::UsersLoggedIn { body } };
                (Login { stage: LoginStage::Done, password, user_id, verified }, action)
            },
            (LoginStage::FindingRole, Event::Role(Err(d))) => {
                (Login { stage: LoginStage::Done, password, user_id, verified }, db_fail(d))
            },
            (stage, _) => {
                proof {
                    assert(false);
                }
                (Login { stage, password, user_id, verified }, Action::Commit)
            },
        }
    }
}

} // verus!
