//! Account deletion: check the current password, record the deletion in the
//! audit log, delete the user and make the client drop its session cookie.

use vstd::prelude::*;
use crate::errors::{AppError, db_error_view};
use crate::handler::auth::password::{user_not_found, wrong_current_password};
use crate::handler::flow::{
    Action, Event, Reply, db_fail, expired_refresh_cookie, fails_with, is_refresh_cookie,
};
use crate::models::users::enums::{LogAction, LogEntity};
use crate::models::users::log::LogEntry;

verus! {

broadcast use vstd::string::to_string_from_display_ensures_for_str;

/// The deletion form.
pub struct DeleteUserRequest {
    pub current_password: String,
}

/// Where a deletion stands.
pub enum DeleteUserStage {
    FindingHash,
    Verifying,
    Logging,
    Deleting,
    Committing,
    Done,
}

/// A deletion in progress.
pub struct DeleteUser {
    pub stage: DeleteUserStage,
    pub user_id: u128,
    pub current_password: String,
    /// Whether the current password has been verified against the stored hash.
    pub verified: Ghost<bool>,
}

/// Past the password check, a deletion holds a verified current password.
pub open spec fn delete_user_invariant(f: DeleteUser) -> bool {
    (f.stage is Logging || f.stage is Deleting || f.stage is Committing) ==> f.verified@
}

/// The audit-log entry of an account deletion.
pub open spec fn deletion_entry(e: LogEntry, user_id: u128) -> bool {
    &&& e.action_type == LogAction::Delete
    &&& e.entity_type == LogEntity::User
    &&& e.user_id == Some(user_id)
    &&& e.entity_id == Some(user_id)
    &&& e.ip_address is None
    &&& e.old_values is None
    &&& e.new_values is None
    &&& e.error_message is None
}

/// The events each stage waits for.
pub open spec fn delete_user_expects(stage: DeleteUserStage, event: Event) -> bool {
    match stage {
        DeleteUserStage::FindingHash => event is PasswordHash,
        DeleteUserStage::Verifying => event is Verified,
        DeleteUserStage::Logging => event is Done,
        DeleteUserStage::Deleting => event is Deleted,
        DeleteUserStage::Committing => event is Done,
        DeleteUserStage::Done => false,
    }
}

impl DeleteUser {
    /// Takes a deletion request of the authenticated user; the stored
    /// password hash is looked up first.
    pub fn start(user_id: u128, request: DeleteUserRequest) -> (r: (DeleteUser, Action))
        ensures
            r.1 == (Action::FindPasswordHash { user_id }),
            r.0.stage is FindingHash,
            delete_user_invariant(r.0),
            !r.0.verified@,
            r.0.user_id == user_id,
            r.0.current_password@ == request.current_password@,
    {
        let stage = DeleteUserStage::FindingHash;
        let current_password = request.current_password;
        let verified = Ghost(false);
        (DeleteUser { stage, user_id, current_password, verified }, Action::FindPasswordHash { user_id })
    }

    /// Advances the deletion with the outcome of its last action.
    pub fn resume(self, event: Event) -> (r: (DeleteUser, Action))
        requires
            delete_user_expects(self.stage, event),
            delete_user_invariant(self),
        ensures
            delete_user_invariant(r.0),
            // The deletion is logged, performed and answered only after the
            // current password is verified.
            (r.1 is InsertLog || r.1 is DeleteUser || r.1 is Commit || r.1 is Respond) ==> r.0.verified@,
            self.stage is FindingHash ==> (event matches Event::PasswordHash(res) && match res {
                Err(d) => fails_with(r.1, db_error_view(d)) && r.0.stage is Done,
                Ok(None) => fails_with(r.1, user_not_found()) && r.0.stage is Done,
                Ok(Some(h)) => r.1 matches Action::VerifyPassword { password, hash } && password@
                    == self.current_password@ && hash@ == h@ && r.0.stage is Verifying,
            }),
            // Nothing is logged or deleted unless the current password is verified.
            self.stage is Verifying ==> (event matches Event::Verified(res) && match res {
                Err(e) => fails_with(r.1, e@) && r.0.stage is Done,
                Ok(false) => fails_with(r.1, wrong_current_password()) && r.0.stage is Done,
                Ok(true) => r.1 matches Action::InsertLog { entry } && deletion_entry(
                    entry,
                    self.user_id,
                ) && r.0.stage is Logging,
            }),
            self.stage is Logging ==> (event matches Event::Done(res) && match res {
                Err(d) => fails_with(r.1, db_error_view(d)) && r.0.stage is Done,
                Ok(_) => r.1 == (Action::DeleteUser { user_id: self.user_id })
                    && r.0.stage is Deleting,
            }),
            // A deletion that removed no row is a missing user.
            self.stage is Deleting ==> (event matches Event::Deleted(res) && match res {
                Err(d) => fails_with(r.1, db_error_view(d)) && r.0.stage is Done,
                Ok(n) => if n == 0 {
                    fails_with(r.1, user_not_found()) && r.0.stage is Done
                } else {
                    r.1 is Commit && r.0.stage is Committing
                },
            }),
            self.stage is Committing ==> (event matches Event::Done(res) && match res {
                Err(d) => fails_with(r.1, db_error_view(d)) && r.0.stage is Done,
                Ok(_) => r.0.stage is Done && match r.1 {
                    Action::Respond { reply: Reply::UserDeleted { cookie } } => is_refresh_cookie(
                        cookie,
                        ""@,
                        0,
                    ),
                    _ => false,
                },
            }),
            r.0.user_id == self.user_id,
            r.0.current_password@ == self.current_password@,
    {
        let DeleteUser { stage, user_id, current_password, verified } = self;
        match (stage, event) {
            (DeleteUserStage::FindingHash, Event::PasswordHash(Ok(Some(hash)))) => {
                let action = Action::VerifyPassword { password: current_password.clone(), hash };
                (DeleteUser { verified, stage: DeleteUserStage::Verifying, user_id, current_password }, action)
            },
            (DeleteUserStage::FindingHash, Event::PasswordHash(Ok(None))) => {
                let error = AppError::NotFound("User not found".to_string());
                (DeleteUser { verified, stage: DeleteUserStage::Done, user_id, current_password }, Action::Fail { error })
            },
            (DeleteUserStage::FindingHash, Event::PasswordHash(Err(d))) => {
                (DeleteUser { verified, stage: DeleteUserStage::Done, user_id, current_password }, db_fail(d))
            },
            (DeleteUserStage::Verifying, Event::Verified(Ok(valid))) => {
                if valid {
                    let verified = Ghost(true);
                    let entry = LogEntry::new(LogAction::Delete, LogEntity::User).user_id(
                        user_id,
                    ).entity_id(user_id);
                    let action = Action::InsertLog { entry };
                    (DeleteUser { verified, stage: DeleteUserStage::Logging, user_id, current_password }, action)
                } else {
                    let error = AppError::Unauthorized("Current password is incorrect".to_string());
                    (DeleteUser { verified, stage: DeleteUserStage::Done, user_id, current_password }, Action::Fail { error })
                }
            },
            (DeleteUserStage::Verifying, Event::Verified(Err(error))) => {
                (DeleteUser { verified, stage: DeleteUserStage::Done, user_id, current_password }, Action::Fail { error })
            },
            (DeleteUserStage::Logging, Event::Done(Ok(()))) => {
                (DeleteUser { verified, stage: DeleteUserStage::Deleting, user_id, current_password }, Action::DeleteUser { user_id })
            },
            (DeleteUserStage::Deleting, Event::Deleted(Ok(rows))) => {
                if rows == 0 {
                    let error = AppError::NotFound("User not found".to_string());
                    (DeleteUser { verified, stage: DeleteUserStage::Done, user_id, current_password }, Action::Fail { error })
                } else {
                    (DeleteUser { verified, stage: DeleteUserStage::Committing, user_id, current_password }, Action::Commit)
                }
            },
            (DeleteUserStage::Deleting, Event::Deleted(Err(d))) => {
                (DeleteUser { verified, stage: DeleteUserStage::Done, user_id, current_password }, db_fail(d))
            },
            (DeleteUserStage::Committing, Event::Done(Ok(()))) => {
                let reply = Reply::UserDeleted { cookie: expired_refresh_cookie() };
                (DeleteUser { verified, stage: DeleteUserStage::Done, user_id, current_password }, Action::Respond { reply })
            },
            (DeleteUserStage::Logging, Event::Done(Err(d)))
            | (DeleteUserStage::Committing, Event::Done(Err(d))) => {
                (DeleteUser { verified, stage: DeleteUserStage::Done, user_id, current_password }, db_fail(d))
            },
            (stage, _) => {
                proof {
                    assert(false);
                }
                (DeleteUser { stage, user_id, current_password, verified }, Action::Commit)
            },
        }
    }
}

} // verus!
