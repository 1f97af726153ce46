//! `POST /register` of the `users` routes: create an account without
//! opening a session.

use vstd::prelude::*;
use crate::errors::{AppError, ErrorKind, db_error_view};
use crate::handler::auth::register::{registration_check, validate_registration};
use crate::handler::flow::{Action, Event, Reply, db_fail, fails_with};

verus! {

broadcast use vstd::string::to_string_from_display_ensures_for_str;

/// The registration form.
pub struct RegisterRequest {
    pub email: String,
    pub password: String,
    pub login: String,
}

/// The created account.
pub struct RegisterResponse {
    pub user_id: u128,
    pub login: String,
}

/// Where a registration stands.
pub enum RegisterStage {
    Hashing,
    InsertingUser,
    AssigningRole,
    Committing,
    Done,
}

/// A registration in progress.
pub struct Register {
    pub stage: RegisterStage,
    pub email: String,
    pub login: String,
    pub user_id: u128,
    pub stored_login: String,
}

/// The events each stage waits for.
pub open spec fn register_expects(stage: RegisterStage, event: Event) -> bool {
    match stage {
        RegisterStage::Hashing => event is Hashed,
        RegisterStage::InsertingUser => event is UserInserted,
        RegisterStage::AssigningRole => event is RoleInserted,
        RegisterStage::Committing => event is Done,
        RegisterStage::Done => false,
    }
}

impl Register {
    /// Takes a registration: a form that fails validation is answered at
    /// once; otherwise the password is hashed first.
    pub fn start(request: RegisterRequest) -> (r: (Register, Action))
        ensures
            registration_check(request.email@, request.login@, request.password@) matches Err(e) ==> (
            fails_with(r.1, e) && r.0.stage is Done),
            registration_check(request.email@, request.login@, request.password@) is Ok ==> (
            r.1 matches Action::HashPassword { password } && password@ == request.password@
                && r.0.stage is Hashing && r.0.email@ == request.email@ && r.0.login@
                == request.login@),
    {
        let check = validate_registration(
            request.email.as_str(),
            request.login.as_str(),
            request.password.as_str(),
        );
        let RegisterRequest { email, password, login } = request;
        match check {
            Err(error) => {
                let stage = RegisterStage::Done;
                (Register { stage, email, login, user_id: 0, stored_login: String::new() }, Action::Fail { error })
            },
            Ok(()) => {
                let stage = RegisterStage::Hashing;
                (Register { stage, email, login, user_id: 0, stored_login: String::new() }, Action::HashPassword { password })
            },
        }
    }

    /// Advances the registration with the outcome of its last action.
    pub fn resume(self, event: Event) -> (r: (Register, Action))
        requires
            register_expects(self.stage, event),
        ensures
            self.stage is Hashing ==> (event matches Event::Hashed(res) && match res {
                Err(e) => fails_with(r.1, e@) && r.0.stage is Done,
                Ok(h) => r.1 matches Action::InsertUser { email, password_hash, login } && email@
                    == self.email@ && password_hash@ == h@ && login@ == self.login@
                    && r.0.stage is InsertingUser,
            }),
            self.stage is InsertingUser ==> (event matches Event::UserInserted(res) && match res {
                Err(d) => fails_with(r.1, db_error_view(d)) && r.0.stage is Done,
                Ok((id, l)) => r.1 == (Action::InsertDefaultRole { user_id: id })
                    && r.0.stage is AssigningRole && r.0.user_id == id && r.0.stored_login@ == l@,
            }),
            self.stage is AssigningRole ==> (event matches Event::RoleInserted(res) && match res {
                Err(d) => fails_with(r.1, db_error_view(d)) && r.0.stage is Done,
                Ok(None) => fails_with(
                    r.1,
                    (ErrorKind::InternalError, "Default role 'user' not found"@),
                ) && r.0.stage is Done,
                Ok(Some(_)) => r.1 is Commit && r.0.stage is Committing,
            }),
            self.stage is Committing ==> (event matches Event::Done(res) && match res {
                Err(d) => fails_with(r.1, db_error_view(d)) && r.0.stage is Done,
                Ok(_) => r.1 matches Action::Respond { reply: Reply::UsersRegistered { body } }
                    && body.user_id == self.user_id && body.login@ == self.stored_login@
                    && r.0.stage is Done,
            }),
            r.0.email@ == self.email@,
            r.0.login@ == self.login@,
            !(self.stage is InsertingUser) ==> r.0.user_id == self.user_id && r.0.stored_login@
                == self.stored_login@,
    {
        let Register { stage, email, login, user_id, stored_login } = self;
        match (stage, event) {
            (RegisterStage::Hashing, Event::Hashed(Ok(hash))) => {
                let action = Action::InsertUser {
                    email: email.clone(),
                    password_hash: hash,
                    login: login.clone(),
                };
                let stage = RegisterStage::InsertingUser;
                (Register { stage, email, login, user_id, stored_login }, action)
            },
            (RegisterStage::Hashing, Event::Hashed(Err(error))) => {
                let stage = RegisterStage::Done;
                (Register { stage, email, login, user_id, stored_login }, Action::Fail { error })
            },
            (RegisterStage::InsertingUser, Event::UserInserted(Ok((id, l)))) => {
                let stage = RegisterStage::AssigningRole;
                let action = Action::InsertDefaultRole { user_id: id };
                (Register { stage, email, login, user_id: id, stored_login: l }, action)
            },
            (RegisterStage::InsertingUser, Event::UserInserted(Err(d))) => {
                let stage = RegisterStage::Done;
                (Register { stage, email, login, user_id, stored_login }, db_fail(d))
            },
            (RegisterStage::AssigningRole, Event::RoleInserted(Ok(Some(_)))) => {
                let stage = RegisterStage::Committing;
                (Register { stage, email, login, user_id, stored_login }, Action::Commit)
            },
            (RegisterStage::AssigningRole, Event::RoleInserted(Ok(None))) => {
                let stage = RegisterStage::Done;
                let error = AppError::InternalError("Default role 'user' not found".to_string());
                (Register { stage, email, login, user_id, stored_login }, Action::Fail { error })
            },
            (RegisterStage::AssigningRole, Event::RoleInserted(Err(d))) => {
                let stage = RegisterStage::Done;
                (Register { stage, email, login, user_id, stored_login }, db_fail(d))
            },
            (RegisterStage::Committing, Event::Done(Ok(()))) => {
                let body = RegisterResponse { user_id, login: stored_login.clone() };
                let stage = RegisterStage::Done;
                let action = Action::Respond { reply: Reply::UsersRegistered { body } };
                (Register { stage, email, login, user_id, stored_login }, action)
            },
            (RegisterStage::Committing, Event::Done(Err(d))) => {
                let stage = RegisterStage::Done;
                (Register { stage, email, login, user_id, stored_login }, db_fail(d))
            },
            (stage, _) => {
                proof {
                    assert(false);
                }
                (Register { stage, email, login, user_id, stored_login }, Action::Commit)
            },
        }
    }
}

} // verus!
