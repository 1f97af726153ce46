//! `POST /api/auth/logout`: revoke the session of the presented refresh
//! token and make the client drop the cookie.

use vstd::prelude::*;
use crate::errors::db_error_view;
use crate::handler::flow::{
    Action, Event, Reply, db_fail, expired_refresh_cookie, fails_with, is_refresh_cookie,
};
use crate::utils::session::token::{hash_refresh_token, refresh_token_hash};

verus! {

/// `a` answers the logout with the cookie that clears the refresh token.
pub open spec fn logged_out(a: Action) -> bool {
    match a {
        Action::Respond { reply: Reply::LoggedOut { cookie } } => is_refresh_cookie(cookie, ""@, 0),
        _ => false,
    }
}

/// Where a logout stands.
pub enum LogoutStage {
    Revoking,
    Done,
}

/// A logout in progress.
pub struct Logout {
    pub stage: LogoutStage,
}

impl Logout {
    /// Takes the refresh-token cookie, if any: its session is revoked by
    /// hash; without one the client is simply told to drop the cookie.
    pub fn start(cookie: Option<String>) -> (r: (Logout, Action))
        ensures
            cookie is None ==> logged_out(r.1) && r.0.stage is Done,
            cookie matches Some(raw) ==> (r.1 matches Action::RevokeSession { token_hash }
                && token_hash@ == refresh_token_hash(raw@) && r.0.stage is Revoking),
    {
        match cookie {
            Some(raw) => {
                let token_hash = hash_refresh_token(raw.as_str());
                (Logout { stage: LogoutStage::Revoking }, Action::RevokeSession { token_hash })
            },
            None => {
                let reply = Reply::LoggedOut { cookie: expired_refresh_cookie() };
                (Logout { stage: LogoutStage::Done }, Action::Respond { reply })
            },
        }
    }

    /// Advances the logout with the outcome of the revocation.
    pub fn resume(self, event: Event) -> (r: (Logout, Action))
        requires
            self.stage is Revoking,
            event is Done,
        ensures
            r.0.stage is Done,
            event matches Event::Done(res) && match res {
                Err(d) => fails_with(r.1, db_error_view(d)),
                Ok(_) => logged_out(r.1),
            },
    {
        match event {
            Event::Done(Ok(())) => {
                let reply = Reply::LoggedOut { cookie: expired_refresh_cookie() };
                (Logout { stage: LogoutStage::Done }, Action::Respond { reply })
            },
            Event::Done(Err(d)) => (Logout { stage: LogoutStage::Done }, db_fail(d)),
            _ => {
                proof {
                    assert(false);
                }
                (Logout { stage: LogoutStage::Done }, Action::Commit)
            },
        }
    }
}

} // verus!
