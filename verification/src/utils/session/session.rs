//! Opening sessions: the per-user session cap and the minting of refresh tokens.

use vstd::prelude::*;
use crate::clock::{MAX_UTC_TIMESTAMP, SECONDS_PER_DAY, UtcTime, clock_reading, now_utc};
use crate::errors::{AppError, DbError, ErrorKind, db_error_view};
use crate::models::users::log::IpAddress;
use crate::utils::session::token::{
    MAX_SESSIONS_PER_USER, REFRESH_TOKEN_TTL_DAYS, generate_refresh_token, hash_refresh_token,
    is_refresh_token, refresh_token_hash,
};

verus! {

broadcast use vstd::string::to_string_from_display_ensures_for_str;

/// A user who holds `active` live sessions is at the cap: opening another
/// one revokes their oldest first.
pub open spec fn at_session_cap(active: int) -> bool {
    active >= MAX_SESSIONS_PER_USER
}

/// Whether a user who holds `active_count` live sessions must have the
/// oldest one revoked before a new one is opened.
pub fn must_revoke_oldest(active_count: i64) -> (r: bool)
    ensures
        r == at_session_cap(active_count as int),
{
    active_count >= MAX_SESSIONS_PER_USER
}

/// How many live sessions a user holds once a session is opened, when they
/// held `active` before: the oldest is revoked first whenever `active` has
/// reached the cap (see [`must_revoke_oldest`]).
pub open spec fn live_after_open(active: int) -> int {
    let revoked = if at_session_cap(active) {
        1int
    } else {
        0int
    };
    active - revoked + 1
}

/// Opening a session never takes a user past `MAX_SESSIONS_PER_USER` live
/// sessions, and always leaves them at least one.
pub proof fn law_session_cap(active: int)
    requires
        0 <= active <= MAX_SESSIONS_PER_USER,
    ensures
        1 <= live_after_open(active) <= MAX_SESSIONS_PER_USER,
{
}

/// Opening a session below the cap of five revokes nothing and adds one live
/// session; at five or more it revokes exactly the oldest, so the count stays.
pub proof fn law_cap_revocation(active: int)
    requires
        0 <= active,
    ensures
        active < 5 ==> !at_session_cap(active) && live_after_open(active) == active + 1,
        active >= 5 ==> at_session_cap(active) && live_after_open(active) == active,
{
}

/// The material of a new session: the refresh token handed to the client,
/// the hash stored in its place, and when the session expires.
pub struct NewSession {
    pub raw_token: String,
    pub token_hash: String,
    pub expires_at: UtcTime,
}

/// `expires_at` lies `REFRESH_TOKEN_TTL_DAYS` days after `now`.
pub open spec fn expires_after_ttl(expires_at: UtcTime, now: UtcTime) -> bool {
    expires_at.secs == now.secs + REFRESH_TOKEN_TTL_DAYS * SECONDS_PER_DAY && expires_at.nanos
        == now.nanos
}

/// A session minted at `now` expires thirty days (2,592,000 seconds) later,
/// at the same sub-second instant.
pub proof fn law_session_expiry(expires_at: UtcTime, now: UtcTime)
    requires
        expires_after_ttl(expires_at, now),
    ensures
        expires_at.secs == now.secs + 2_592_000,
        expires_at.nanos == now.nanos,
{
}

/// A well-formed new session opened at `now`: a fresh refresh token, its
/// hash, and an expiry `REFRESH_TOKEN_TTL_DAYS` days after `now`.
pub open spec fn session_minted_at(s: NewSession, now: UtcTime) -> bool {
    &&& is_refresh_token(s.raw_token@)
    &&& s.token_hash@ == refresh_token_hash(s.raw_token@)
    &&& s.raw_token@.len() == 43
    &&& s.token_hash@.len() == 64
    &&& expires_after_ttl(s.expires_at, now)
}

/// The database never holds a session's refresh token itself: what is
/// stored in its place differs from it.
pub proof fn law_stored_hash_is_not_the_token(s: NewSession, now: UtcTime)
    requires
        session_minted_at(s, now),
    ensures
        s.token_hash@ != s.raw_token@,
{
}

/// Mints a session at clock reading `now`.
pub fn mint_session_at(now: UtcTime) -> (r: Option<NewSession>)
    requires
        0 <= now.secs <= MAX_UTC_TIMESTAMP,
    ensures
        now.secs + REFRESH_TOKEN_TTL_DAYS * SECONDS_PER_DAY <= MAX_UTC_TIMESTAMP ==> (r matches Some(
            s,
        ) && session_minted_at(s, now)),
        now.secs + REFRESH_TOKEN_TTL_DAYS * SECONDS_PER_DAY > MAX_UTC_TIMESTAMP ==> r is None,
{
    match now.plus_days(REFRESH_TOKEN_TTL_DAYS) {
        None => None,
        Some(expires_at) => {
            let raw_token = generate_refresh_token();
            let token_hash = hash_refresh_token(raw_token.as_str());
            Some(NewSession { raw_token, token_hash, expires_at })
        },
    }
}

/// Mints a session at the current time. When the clock reads a moment whose
/// expiry chrono cannot represent (the year 262142), an `InternalError` is returned.
pub fn mint_session() -> (r: Result<NewSession, AppError>)
    ensures
        r is Ok ==> exists|now: UtcTime| clock_reading(now) && #[trigger] session_minted_at(r->Ok_0, now),
        r matches Err(e) ==> e@.0 == ErrorKind::InternalError,
{
    let now = now_utc();
    match mint_session_at(now) {
        Some(s) => {
            let r: Result<NewSession, AppError> = Ok(s);
            assert(session_minted_at(r->Ok_0, now));
            r
        },
        None => Err(AppError::InternalError("Session expiry out of range".to_string())),
    }
}

/// What opening a session asks its caller to do next.
pub enum SessionAction {
    /// Count the user's live (unrevoked, unexpired) sessions.
    CountActive { user_id: u128 },
    /// Revoke the user's oldest live session.
    RevokeOldest { user_id: u128 },
    /// Store a session: the hash of its refresh token, its expiry and the client.
    Insert {
        user_id: u128,
        token_hash: String,
        expires_at: UtcTime,
        ip_address: Option<IpAddress>,
        user_agent: Option<String>,
    },
    /// The outcome: the raw refresh token of the stored session, or an error.
    Finish { result: Result<String, AppError> },
}

/// What the caller reports back after a session action.
pub enum SessionEvent {
    /// Outcome of `CountActive`.
    Counted(Result<i64, DbError>),
    /// Outcome of `RevokeOldest` and `Insert`.
    Done(Result<(), DbError>),
}

/// Where the opening of a session stands.
pub enum OpenSessionStage {
    Counting,
    RevokingOldest,
    Inserting,
    Done,
}

/// The opening of a session in progress.
pub struct OpenSession {
    pub stage: OpenSessionStage,
    pub user_id: u128,
    pub ip_address: Option<IpAddress>,
    pub user_agent: Option<String>,
    /// The refresh token of the session being stored.
    pub raw_token: String,
}

/// `a` ends with the error whose view is `e`.
pub open spec fn session_fails_with(a: SessionAction, e: (ErrorKind, Seq<char>)) -> bool {
    a matches SessionAction::Finish { result } && result matches Err(x) && x@ == e
}

/// `a` stores a freshly minted session for the opening `f` of a user's
/// session from an address with a user agent, whose refresh
/// token `f.raw_token` is the one whose hash is stored; or, when the clock
/// is past what an expiry can represent, ends with an internal error.
pub open spec fn inserts_minted(
    a: SessionAction,
    f: OpenSession,
    user_id: u128,
    ip: Option<IpAddress>,
    agent: Option<String>,
) -> bool {
    ||| (a matches SessionAction::Insert { user_id: id, token_hash, expires_at, ip_address, user_agent }
        && id == user_id && ip_address == ip && user_agent == agent && is_refresh_token(f.raw_token@) && token_hash@ == refresh_token_hash(f.raw_token@)
        && (exists|now: UtcTime| clock_reading(now) && #[trigger] expires_after_ttl(expires_at, now))
        && f.stage is Inserting)
    ||| (a matches SessionAction::Finish { result } && result matches Err(e) && e@.0
        == ErrorKind::InternalError && f.stage is Done)
}

/// The events each stage waits for.
pub open spec fn open_session_expects(stage: OpenSessionStage, event: SessionEvent) -> bool {
    match stage {
        OpenSessionStage::Counting => event is Counted,
        OpenSessionStage::RevokingOldest => event is Done,
        OpenSessionStage::Inserting => event is Done,
        OpenSessionStage::Done => false,
    }
}

impl OpenSession {
    /// Opens a session for a user connecting from an address with a user
    /// agent; the user's live sessions are counted first.
    pub fn start(user_id: u128, ip_address: Option<IpAddress>, user_agent: Option<String>) -> (r: (
        OpenSession,
        SessionAction,
    ))
        ensures
            r.1 == (SessionAction::CountActive { user_id }),
            r.0.stage is Counting,
            r.0.user_id == user_id,
            r.0.ip_address == ip_address,
            r.0.user_agent == user_agent,
    {
        let flow = OpenSession {
            stage: OpenSessionStage::Counting,
            user_id,
            ip_address,
            user_agent,
            raw_token: String::new(),
        };
        (flow, SessionAction::CountActive { user_id })
    }

    /// Mints the session and asks for it to be stored.
    fn insert_minted(self) -> (r: (OpenSession, SessionAction))
        ensures
            inserts_minted(r.1, r.0, self.user_id, self.ip_address, self.user_agent),
            r.0.user_id == self.user_id,
            r.0.ip_address == self.ip_address,
    {
        let OpenSession { stage, user_id, ip_address, user_agent, raw_token } = self;
        match mint_session() {
            Ok(s) => {
                proof {
                    let now = choose|now: UtcTime| clock_reading(now) && session_minted_at(s, now);
                    assert(expires_after_ttl(s.expires_at, now));
                }
                let ghost e = s.expires_at;
                let action = SessionAction::Insert {
                    user_id,
                    token_hash: s.token_hash,
                    expires_at: s.expires_at,
                    ip_address,
                    user_agent,
                };
                assert(action->expires_at == e);
                let flow = OpenSession {
                    stage: OpenSessionStage::Inserting,
                    user_id,
                    ip_address,
                    user_agent: None,
                    raw_token: s.raw_token,
                };
                (flow, action)
            },
            Err(error) => {
                let flow = OpenSession { stage: OpenSessionStage::Done, user_id, ip_address, user_agent, raw_token };
                (flow, SessionAction::Finish { result: Err(error) })
            },
        }
    }

    /// Advances the opening of the session with the outcome of its last action.
    pub fn resume(self, event: SessionEvent) -> (r: (OpenSession, SessionAction))
        requires
            open_session_expects(self.stage, event),
        ensures
            // A user at the session cap loses their oldest session first.
            self.stage is Counting ==> (event matches SessionEvent::Counted(res) && match res {
                Err(d) => session_fails_with(r.1, db_error_view(d)) && r.0.stage is Done,
                Ok(n) => if at_session_cap(n as int) {
                    r.1 == (SessionAction::RevokeOldest { user_id: self.user_id })
                        && r.0.stage is RevokingOldest
                } else {
                    inserts_minted(r.1, r.0, self.user_id, self.ip_address, self.user_agent)
                },
            }),
            self.stage is RevokingOldest ==> (event matches SessionEvent::Done(res) && match res {
                Err(d) => session_fails_with(r.1, db_error_view(d)) && r.0.stage is Done,
                Ok(_) => inserts_minted(r.1, r.0, self.user_id, self.ip_address, self.user_agent),
            }),
            // The token handed back is the one whose hash was stored.
            self.stage is Inserting ==> (event matches SessionEvent::Done(res) && match res {
                Err(d) => session_fails_with(r.1, db_error_view(d)) && r.0.stage is Done,
                Ok(_) => r.1 matches SessionAction::Finish { result } && result matches Ok(t) && t@
                    == self.raw_token@ && r.0.stage is Done,
            }),
            r.0.user_id == self.user_id,
            r.0.ip_address == self.ip_address,
            r.1 is RevokeOldest ==> r.0.user_agent == self.user_agent,
    {
        match (&self.stage, &event) {
            (OpenSessionStage::Counting, SessionEvent::Counted(Ok(n))) => {
                if must_revoke_oldest(*n) {
                    let user_id: u128 = self.user_id;
                    let flow = OpenSession { stage: OpenSessionStage::RevokingOldest, ..self };
                    (flow, SessionAction::RevokeOldest { user_id })
                } else {
                    self.insert_minted()
                }
            },
            (OpenSessionStage::RevokingOldest, SessionEvent::Done(Ok(()))) => self.insert_minted(),
            (OpenSessionStage::Inserting, SessionEvent::Done(Ok(()))) => {
                let result = Ok(self.raw_token.clone());
                let flow = OpenSession { stage: OpenSessionStage::Done, ..self };
                (flow, SessionAction::Finish { result })
            },
            _ => {
                let flow = OpenSession { stage: OpenSessionStage::Done, ..self };
                match event {
                    SessionEvent::Counted(Err(d)) | SessionEvent::Done(Err(d)) => {
                        (flow, SessionAction::Finish { result: Err(AppError::from_db_error(d)) })
                    },
                    _ => {
                        proof {
                            assert(false);
                        }
                        (flow, SessionAction::CountActive { user_id: 0 })
                    },
                }
            },
        }
    }
}

} // verus!
