//! `POST` change-password: check the current password, store the new one and
//! revoke every session, so the user has to log in again.

use vstd::prelude::*;
use crate::errors::{AppError, ErrorKind, db_error_view};
use crate::handler::flow::{Action, Event, Reply, db_fail, fails_with};
use crate::utils::validators::password::{password_check, validate_password};

verus! {

broadcast use vstd::string::to_string_from_display_ensures_for_str;

/// The change-password form.
pub struct ChangePasswordRequest {
    pub current_password: String,
    pub new_password: String,
}

/// The confirmation of a password change.
pub struct ChangePasswordResponse {
    pub message: String,
}

/// The error for a user that no longer exists.
pub open spec fn user_not_found() -> (ErrorKind, Seq<char>) {
    (ErrorKind::NotFound, "User not found"@)
}

/// The error for a wrong current password.
pub open spec fn wrong_current_password() -> (ErrorKind, Seq<char>) {
    (ErrorKind::Unauthorized, "Current password is incorrect"@)
}

/// Where a password change stands.
pub enum ChangePasswordStage {
    FindingHash,
    Verifying,
    Hashing,
    Updating,
    RevokingSessions,
    Committing,
    Done,
}

/// A password change in progress.
pub struct ChangePassword {
    pub stage: ChangePasswordStage,
    pub user_id: u128,
    pub current_password: String,
    pub new_password: String,
    /// Whether the current password has been verified against the stored hash.
    pub verified: Ghost<bool>,
}

/// Past the password check, a password change holds a verified current password.
pub open spec fn change_password_invariant(f: ChangePassword) -> bool {
    (f.stage is Hashing || f.stage is Updating || f.stage is RevokingSessions || f.stage
        is Committing) ==> f.verified@
}

/// The events each stage waits for.
pub open spec fn change_password_expects(stage: ChangePasswordStage, event: Event) -> bool {
    match stage {
        ChangePasswordStage::FindingHash => event is PasswordHash,
        ChangePasswordStage::Verifying => event is Verified,
        ChangePasswordStage::Hashing => event is Hashed,
        ChangePasswordStage::Updating => event is Done,
        ChangePasswordStage::RevokingSessions => event is Done,
        ChangePasswordStage::Committing => event is Done,
        ChangePasswordStage::Done => false,
    }
}

impl ChangePassword {
    /// Takes a password change for the authenticated user: a new password
    /// that breaks the password policy is refused at once; otherwise the
    /// stored hash is looked up.
    pub fn start(user_id: u128, request: ChangePasswordRequest) -> (r: (ChangePassword, Action))
        ensures
            password_check(request.new_password@) matches Err(e) ==> (fails_with(r.1, e)
                && r.0.stage is Done),
            password_check(request.new_password@) is Ok ==> (r.1 == (Action::FindPasswordHash {
                user_id,
            }) && r.0.stage is FindingHash),
            change_password_invariant(r.0),
            !r.0.verified@,
            r.0.user_id == user_id,
            r.0.current_password@ == request.current_password@,
            r.0.new_password@ == request.new_password@,
    {
        let check = validate_password(request.new_password.as_str());
        let ChangePasswordRequest { current_password, new_password } = request;
        let verified = Ghost(false);
        match check {
            Err(error) => {
                let stage = ChangePasswordStage::Done;
                (ChangePassword { stage, user_id, current_password, new_password, verified }, Action::Fail { error })
            },
            Ok(()) => {
                let stage = ChangePasswordStage::FindingHash;
                (ChangePassword { stage, user_id, current_password, new_password, verified }, Action::FindPasswordHash { user_id })
            },
        }
    }

    /// Advances the password change with the outcome of its last action.
    pub fn resume(self, event: Event) -> (r: (ChangePassword, Action))
        requires
            change_password_expects(self.stage, event),
            change_password_invariant(self),
        ensures
            change_password_invariant(r.0),
            // The stored password changes, and sessions are revoked, only after the
            // current password is verified.
            (r.1 is HashPassword || r.1 is UpdatePassword || r.1 is RevokeUserSessions || r.1 is Commit
                || r.1 is Respond) ==> r.0.verified@,
            self.stage is FindingHash ==> (event matches Event::PasswordHash(res) && match res {
                Err(d) => fails_with(r.1, db_error_view(d)) && r.0.stage is Done,
                Ok(None) => fails_with(r.1, user_not_found()) && r.0.stage is Done,
                Ok(Some(h)) => r.1 matches Action::VerifyPassword { password, hash } && password@
                    == self.current_password@ && hash@ == h@ && r.0.stage is Verifying,
            }),
            // The new password is hashed only once the current one is verified.
            self.stage is Verifying ==> (event matches Event::Verified(res) && match res {
                Err(e) => fails_with(r.1, e@) && r.0.stage is Done,
                Ok(false) => fails_with(r.1, wrong_current_password()) && r.0.stage is Done,
                Ok(true) => r.1 matches Action::HashPassword { password } && password@
                    == self.new_password@ && r.0.stage is Hashing,
            }),
            self.stage is Hashing ==> (event matches Event::Hashed(res) && match res {
                Err(e) => fails_with(r.1, e@) && r.0.stage is Done,
                Ok(h) => r.1 matches Action::UpdatePassword { user_id, password_hash } && user_id
                    == self.user_id && password_hash@ == h@ && r.0.stage is Updating,
            }),
            // Every session of the user is revoked before the change is committed.
            self.stage is Updating ==> (event matches Event::Done(res) && match res {
                Err(d) => fails_with(r.1, db_error_view(d)) && r.0.stage is Done,
                Ok(_) => r.1 == (Action::RevokeUserSessions { user_id: self.user_id })
                    && r.0.stage is RevokingSessions,
            }),
            self.stage is RevokingSessions ==> (event matches Event::Done(res) && match res {
                Err(d) => fails_with(r.1, db_error_view(d)) && r.0.stage is Done,
                Ok(_) => r.1 is Commit && r.0.stage is Committing,
            }),
            self.stage is Committing ==> (event matches Event::Done(res) && match res {
                Err(d) => fails_with(r.1, db_error_view(d)) && r.0.stage is Done,
                Ok(_) => r.0.stage is Done && (r.1 matches Action::Respond {
                    reply: Reply::PasswordChanged { body },
                } && body.message@ == "Password updated, please log in again"@),
            }),
            r.0.user_id == self.user_id,
            r.0.current_password@ == self.current_password@,
            r.0.new_password@ == self.new_password@,
    {
        let ChangePassword { stage, user_id, current_password, new_password, verified } = self;
        match (stage, event) {
            (ChangePasswordStage::FindingHash, Event::PasswordHash(Ok(Some(hash)))) => {
                let action = Action::VerifyPassword { password: current_password.clone(), hash };
                let stage = ChangePasswordStage::Verifying;
                (ChangePassword { stage, user_id, current_password, new_password, verified }, action)
            },
            (ChangePasswordStage::FindingHash, Event::PasswordHash(Ok(None))) => {
                let error = AppError::NotFound("User not found".to_string());
                let stage = ChangePasswordStage::Done;
                (ChangePassword { stage, user_id, current_password, new_password, verified }, Action::Fail { error })
            },
            (ChangePasswordStage::FindingHash, Event::PasswordHash(Err(d))) => {
                let stage = ChangePasswordStage::Done;
                (ChangePassword { stage, user_id, current_password, new_password, verified }, db_fail(d))
            },
            (ChangePasswordStage::Verifying, Event::Verified(Ok(valid))) => {
                if valid {
                    let verified = Ghost(true);
                    let action = Action::HashPassword { password: new_password.clone() };
                    let stage = ChangePasswordStage::Hashing;
                    (ChangePassword { stage, user_id, current_password, new_password, verified }, action)
                } else {
                    let error = AppError::Unauthorized("Current password is incorrect".to_string());
                    let stage = ChangePasswordStage::Done;
                    (ChangePassword { stage, user_id, current_password, new_password, verified }, Action::Fail { error })
                }
            },
            (ChangePasswordStage::Verifying, Event::Verified(Err(error))) => {
                let stage = ChangePasswordStage::Done;
                (ChangePassword { stage, user_id, current_password, new_password, verified }, Action::Fail { error })
            },
            (ChangePasswordStage::Hashing, Event::Hashed(Ok(password_hash))) => {
                let action = Action::UpdatePassword { user_id, password_hash };
                let stage = ChangePasswordStage::Updating;
                (ChangePassword { stage, user_id, current_password, new_password, verified }, action)
            },
            (ChangePasswordStage::Hashing, Event::Hashed(Err(error))) => {
                let stage = ChangePasswordStage::Done;
                (ChangePassword { stage, user_id, current_password, new_password, verified }, Action::Fail { error })
            },
            (ChangePasswordStage::Updating, Event::Done(Ok(()))) => {
                let stage = ChangePasswordStage::RevokingSessions;
                (ChangePassword { stage, user_id, current_password, new_password, verified }, Action::RevokeUserSessions { user_id })
            },
            (ChangePasswordStage::RevokingSessions, Event::Done(Ok(()))) => {
                let stage = ChangePasswordStage::Committing;
                (ChangePassword { stage, user_id, current_password, new_password, verified }, Action::Commit)
            },
            (ChangePasswordStage::Committing, Event::Done(Ok(()))) => {
                let body = ChangePasswordResponse {
                    message: "Password updated, please log in again".to_string(),
                };
                let stage = ChangePasswordStage::Done;
                let action = Action::Respond { reply: Reply::PasswordChanged { body } };
                (ChangePassword { stage, user_id, current_password, new_password, verified }, action)
            },
            (ChangePasswordStage::Updating, Event::Done(Err(d)))
            | (ChangePasswordStage::RevokingSessions, Event::Done(Err(d)))
            | (ChangePasswordStage::Committing, Event::Done(Err(d))) => {
                let stage = ChangePasswordStage::Done;
                (ChangePassword { stage, user_id, current_password, new_password, verified }, db_fail(d))
            },
            (stage, _) => {
                proof {
                    assert(false);
                }
                (ChangePassword { stage, user_id, current_password, new_password, verified }, Action::Commit)
            },
        }
    }
}

} // verus!
