//! Login change: validate the new login and store it, refusing one that
//! another user already holds.

use vstd::prelude::*;
use crate::errors::{AppError, DbError, ErrorKind, db_error_view};
use crate::handler::auth::password::user_not_found;
use crate::handler::flow::{Action, Event, Reply, db_fail, fails_with};
use crate::utils::validators::login::{login_check, validate_login};

verus! {

broadcast use vstd::string::to_string_from_display_ensures_for_str;

/// The login-change form.
pub struct ChangeLoginRequest {
    pub new_login: String,
}

/// The login now stored.
pub struct ChangeLoginResponse {
    pub login: String,
}

/// The error for a login another user holds.
pub open spec fn login_taken() -> (ErrorKind, Seq<char>) {
    (ErrorKind::Conflict, "This login is already taken"@)
}

/// What a failed login update is answered with: a unique violation is a
/// taken login, any other failure is mapped as usual.
pub open spec fn login_update_error(d: DbError) -> (ErrorKind, Seq<char>) {
    match d {
        DbError::Database { unique_violation: true, .. } => login_taken(),
        _ => db_error_view(d),
    }
}

/// Where a login change stands.
pub enum ChangeLoginStage {
    Updating,
    Committing,
    Done,
}

/// A login change in progress.
pub struct ChangeLogin {
    pub stage: ChangeLoginStage,
    /// The login the database stored, once updated.
    pub stored_login: String,
}

/// The events each stage waits for.
pub open spec fn change_login_expects(stage: ChangeLoginStage, event: Event) -> bool {
    match stage {
        ChangeLoginStage::Updating => event is LoginUpdated,
        ChangeLoginStage::Committing => event is Done,
        ChangeLoginStage::Done => false,
    }
}

impl ChangeLogin {
    /// Takes a login change of the authenticated user: an invalid login is
    /// refused at once; otherwise it is stored.
    pub fn start(user_id: u128, request: ChangeLoginRequest) -> (r: (ChangeLogin, Action))
        ensures
            login_check(request.new_login@) matches Err(e) ==> (fails_with(r.1, e) && r.0.stage is Done),
            login_check(request.new_login@) is Ok ==> (r.1 matches Action::UpdateLogin {
                user_id: id,
                login,
            } && id == user_id && login@ == request.new_login@ && r.0.stage is Updating),
    {
        let check = validate_login(request.new_login.as_str());
        let login = request.new_login;
        match check {
            Err(error) => {
                let flow = ChangeLogin { stage: ChangeLoginStage::Done, stored_login: String::new() };
                (flow, Action::Fail { error })
            },
            Ok(()) => {
                let flow = ChangeLogin { stage: ChangeLoginStage::Updating, stored_login: String::new() };
                (flow, Action::UpdateLogin { user_id, login })
            },
        }
    }

    /// Advances the login change with the outcome of its last action.
    pub fn resume(self, event: Event) -> (r: (ChangeLogin, Action))
        requires
            change_login_expects(self.stage, event),
        ensures
            self.stage is Updating ==> (event matches Event::LoginUpdated(res) && match res {
                Err(d) => fails_with(r.1, login_update_error(d)) && r.0.stage is Done,
                Ok(None) => fails_with(r.1, user_not_found()) && r.0.stage is Done,
                Ok(Some(l)) => r.1 is Commit && r.0.stage is Committing && r.0.stored_login@ == l@,
            }),
            self.stage is Committing ==> (event matches Event::Done(res) && match res {
                Err(d) => fails_with(r.1, db_error_view(d)) && r.0.stage is Done,
                Ok(_) => r.0.stage is Done && (r.1 matches Action::Respond {
                    reply: Reply::LoginChanged { body },
                } && body.login@ == self.stored_login@),
            }),
    {
        let ChangeLogin { stage, stored_login } = self;
        match (stage, event) {
            (ChangeLoginStage::Updating, Event::LoginUpdated(Ok(Some(l)))) => {
                (ChangeLogin { stage: ChangeLoginStage::Committing, stored_login: l }, Action::Commit)
            },
            (ChangeLoginStage::Updating, Event::LoginUpdated(Ok(None))) => {
                let error = AppError::NotFound("User not found".to_string());
                (ChangeLogin { stage: ChangeLoginStage::Done, stored_login }, Action::Fail { error })
            },
            (ChangeLoginStage::Updating, Event::LoginUpdated(Err(d))) => {
                let action = match d {
                    DbError::Database { unique_violation: true, .. } => {
                        let error = AppError::Conflict("This login is already taken".to_string());
                        Action::Fail { error }
                    },
                    _ => db_fail(d),
                };
                (ChangeLogin { stage: ChangeLoginStage::Done, stored_login }, action)
            },
            (ChangeLoginStage::Committing, Event::Done(Ok(()))) => {
                let body = ChangeLoginResponse { login: stored_login.clone() };
                let action = Action::Respond { reply: Reply::LoginChanged { body } };
                (ChangeLogin { stage: ChangeLoginStage::Done, stored_login }, action)
            },
            (ChangeLoginStage::Committing, Event::Done(Err(d))) => {
                (ChangeLogin { stage: ChangeLoginStage::Done, stored_login }, db_fail(d))
            },
            (stage, _) => {
                proof {
                    assert(false);
                }
                (ChangeLogin { stage, stored_login }, Action::Commit)
            },
        }
    }
}

} // verus!
