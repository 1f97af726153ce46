//! `POST /api/auth/refresh`: exchange a live refresh token for a new access
//! token, rotating the refresh token.

use vstd::prelude::*;
use crate::clock::{SECONDS_PER_DAY, UtcTime, clock_reading};
use crate::errors::{AppError, ErrorKind, db_error_view};
use crate::handler::flow::{
    Action, Event, Reply, db_fail, fails_with, is_refresh_cookie, refresh_cookie,
};
use crate::utils::session::session::{expires_after_ttl, mint_session, session_minted_at};
use crate::utils::session::token::{
    REFRESH_TOKEN_TTL_DAYS, hash_refresh_token, is_refresh_token, refresh_token_hash,
};

verus! {

broadcast use vstd::string::to_string_from_display_ensures_for_str;

/// The new access token.
pub struct RefreshResponse {
    pub access_token: String,
}

/// Where a refresh stands.
pub enum RefreshStage {
    FindingSession,
    Rotating,
    Committing,
    IssuingToken,
    Done,
}

/// A refresh in progress.
pub struct Refresh {
    pub stage: RefreshStage,
    /// The session's user and role, once found.
    pub user_id: u128,
    pub role: String,
    /// The refresh token that replaces the presented one, once drawn.
    pub new_token: String,
}

/// The events each stage waits for.
pub open spec fn refresh_expects(stage: RefreshStage, event: Event) -> bool {
    match stage {
        RefreshStage::FindingSession => event is Session,
        RefreshStage::Rotating => event is Done,
        RefreshStage::Committing => event is Done,
        RefreshStage::IssuingToken => event is TokenCreated,
        RefreshStage::Done => false,
    }
}

/// The state of a refresh past the lookup: the new token is a fresh refresh
/// token (once the session is rotated, its stored hash is this token's).
pub open spec fn rotated(f: Refresh) -> bool {
    is_refresh_token(f.new_token@)
}

impl Refresh {
    /// Takes the refresh-token cookie: without one the request is refused;
    /// otherwise the live session holding the token's hash is looked up.
    pub fn start(cookie: Option<String>) -> (r: (Refresh, Action))
        ensures
            cookie is None ==> (fails_with(r.1, (ErrorKind::Unauthorized, "Missing refresh token"@))
                && r.0.stage is Done),
            cookie matches Some(raw) ==> (r.1 matches Action::FindSession { token_hash }
                && token_hash@ == refresh_token_hash(raw@) && r.0.stage is FindingSession),
    {
        match cookie {
            None => {
                let error = AppError::Unauthorized("Missing refresh token".to_string());
                let flow = Refresh {
                    stage: RefreshStage::Done,
                    user_id: 0,
                    role: String::new(),
                    new_token: String::new(),
                };
                (flow, Action::Fail { error })
            },
            Some(raw) => {
                let token_hash = hash_refresh_token(raw.as_str());
                let flow = Refresh {
                    stage: RefreshStage::FindingSession,
                    user_id: 0,
                    role: String::new(),
                    new_token: String::new(),
                };
                (flow, Action::FindSession { token_hash })
            },
        }
    }

    /// Advances the refresh with the outcome of its last action.
    pub fn resume(self, event: Event) -> (r: (Refresh, Action))
        requires
            refresh_expects(self.stage, event),
            !(self.stage is FindingSession) ==> rotated(self),
        ensures
            // An unknown, revoked or expired session is refused; a live one
            // gets a fresh token whose hash replaces the old one.
            self.stage is FindingSession ==> (event matches Event::Session(res) && match res {
                Err(d) => fails_with(r.1, db_error_view(d)) && r.0.stage is Done,
                Ok(None) => fails_with(
                    r.1,
                    (ErrorKind::Unauthorized, "Invalid or expired refresh token"@),
                ) && r.0.stage is Done,
                Ok(Some((session_id, user_id, role))) => {
                    ||| (r.1 matches Action::RotateSession { session_id: sid, token_hash, expires_at }
                        && sid == session_id && token_hash@ == refresh_token_hash(r.0.new_token@)
                        && (exists|now: UtcTime| clock_reading(now) && #[trigger] expires_after_ttl(expires_at, now)) && rotated(r.0)
                        && r.0.stage is Rotating && r.0.user_id == user_id && r.0.role@ == role@)
                    ||| (r.1 matches Action::Fail { error } && error@.0 == ErrorKind::InternalError
                        && r.0.stage is Done)
                },
            }),
            self.stage is Rotating ==> (event matches Event::Done(res) && match res {
                Err(d) => fails_with(r.1, db_error_view(d)) && r.0.stage is Done,
                Ok(_) => r.1 is Commit && r.0.stage is Committing,
            }),
            self.stage is Committing ==> (event matches Event::Done(res) && match res {
                Err(d) => fails_with(r.1, db_error_view(d)) && r.0.stage is Done,
                Ok(_) => r.1 matches Action::CreateAccessToken { user_id, role } && user_id
                    == self.user_id && role@ == self.role@ && r.0.stage is IssuingToken,
            }),
            // The client receives the new token, the one whose hash was stored.
            self.stage is IssuingToken ==> (event matches Event::TokenCreated(res) && match res {
                Err(e) => fails_with(r.1, e@) && r.0.stage is Done,
                Ok(a) => r.0.stage is Done && match r.1 {
                    Action::Respond { reply: Reply::Refreshed { body, cookie } } => {
                        &&& body.access_token@ == a@
                        &&& is_refresh_cookie(cookie, self.new_token@, REFRESH_TOKEN_TTL_DAYS * SECONDS_PER_DAY)
                    },
                    _ => false,
                },
            }),
            !(self.stage is FindingSession) ==> r.0.user_id == self.user_id && r.0.role@
                == self.role@ && r.0.new_token@ == self.new_token@,
            !(r.0.stage is FindingSession) && !(r.0.stage is Done) ==> rotated(r.0),
    {
        let Refresh { stage, user_id, role, new_token } = self;
        match (stage, event) {
            (RefreshStage::FindingSession, Event::Session(Ok(Some((session_id, uid, found))))) => {
                match mint_session() {
                    Ok(s) => {
                        proof {
                            let now = choose|now: UtcTime| clock_reading(now) && session_minted_at(s, now);
                            assert(expires_after_ttl(s.expires_at, now));
                        }
                        let ghost e = s.expires_at;
                        let action = Action::RotateSession {
                            session_id,
                            token_hash: s.token_hash,
                            expires_at: s.expires_at,
                        };
                        let flow = Refresh {
                            stage: RefreshStage::Rotating,
                            user_id: uid,
                            role: found,
                            new_token: s.raw_token,
                        };
                        assert(action->expires_at == e);
                        assert(exists|now: UtcTime| clock_reading(now) && #[trigger] expires_after_ttl(e, now));
                        (flow, action)
                    },
                    Err(error) => {
                        let flow = Refresh { stage: RefreshStage::Done, user_id, role, new_token };
                        (flow, Action::Fail { error })
                    },
                }
            },
            (RefreshStage::FindingSession, Event::Session(Ok(None))) => {
                let error = AppError::Unauthorized("Invalid or expired refresh token".to_string());
                (Refresh { stage: RefreshStage::Done, user_id, role, new_token }, Action::Fail { error })
            },
            (RefreshStage::FindingSession, Event::Session(Err(d))) => {
                (Refresh { stage: RefreshStage::Done, user_id, role, new_token }, db_fail(d))
            },
            (RefreshStage::Rotating, Event::Done(Ok(()))) => {
                (Refresh { stage: RefreshStage::Committing, user_id, role, new_token }, Action::Commit)
            },
            (RefreshStage::Rotating, Event::Done(Err(d))) => {
                (Refresh { stage: RefreshStage::Done, user_id, role, new_token }, db_fail(d))
            },
            (RefreshStage::Committing, Event::Done(Ok(()))) => {
                let action = Action::CreateAccessToken { user_id, role: role.clone() };
                (Refresh { stage: RefreshStage::IssuingToken, user_id, role, new_token }, action)
            },
            (RefreshStage::Committing, Event::Done(Err(d))) => {
                (Refresh { stage: RefreshStage::Done, user_id, role, new_token }, db_fail(d))
            },
            (RefreshStage::IssuingToken, Event::TokenCreated(Ok(access_token))) => {
                let body = RefreshResponse { access_token };
                let cookie = refresh_cookie(new_token.clone());
                let action = Action::Respond { reply: Reply::Refreshed { body, cookie } };
                (Refresh { stage: RefreshStage::Done, user_id, role, new_token }, action)
            },
            (RefreshStage::IssuingToken, Event::TokenCreated(Err(error))) => {
                (Refresh { stage: RefreshStage::Done, user_id, role, new_token }, Action::Fail { error })
            },
            (stage, _) => {
                proof {
                    assert(false);
                }
                (Refresh { stage, user_id, role, new_token }, Action::Commit)
            },
        }
    }
}

} // verus!
