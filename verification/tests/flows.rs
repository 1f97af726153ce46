use api::errors::{AppError, DbError, ErrorKind};
use api::handler::auth::change_login::{ChangeLogin, ChangeLoginRequest};
use api::handler::auth::delete_user::{DeleteUser, DeleteUserRequest};
use api::handler::auth::login::{Login, LoginRequest};
use api::handler::auth::logout::Logout;
use api::handler::auth::password::{ChangePassword, ChangePasswordRequest};
use api::handler::auth::refresh::Refresh;
use api::handler::auth::register::{Register, RegisterRequest};
use api::handler::flow::{expired_refresh_cookie, refresh_cookie, Action, Event, Reply};
use api::handler::user::me::me;
use api::handler::users::login::{Login as UsersLogin, LoginRequest as UsersLoginRequest};
use api::handler::users::register::{Register as UsersRegister, RegisterRequest as UsersRegisterRequest};
use api::models::users::enums::{LogAction, LogEntity};
use api::models::users::log::IpAddress;
use api::utils::session::auth::AuthUser;
use api::utils::session::session::{OpenSession, SessionAction, SessionEvent};
use api::utils::session::token::hash_refresh_token;

fn failure(a: &Action) -> (ErrorKind, String) {
    match a {
        Action::Fail { error } => (error.kind(), error.message().clone()),
        _ => panic!("expected a failure"),
    }
}

const IP: IpAddress = IpAddress::V4(0x7f000001);

fn register_request(email: &str, password: &str, login: &str) -> RegisterRequest {
    RegisterRequest { email: email.to_string(), password: password.to_string(), login: login.to_string() }
}

#[test]
fn register_refuses_invalid_forms_before_any_work() {
    let (_, a) = Register::start(register_request("nope", "Valid#Password1", "alice"), IP);
    assert_eq!(failure(&a), (ErrorKind::BadRequest, "Invalid email format".to_string()));
    let (_, a) = Register::start(register_request("a@b.co", "weak", "alice"), IP);
    assert_eq!(failure(&a), (ErrorKind::BadRequest, "Password must be at least 12 characters".to_string()));
}

#[test]
fn register_full_run() {
    let (f, a) = Register::start(register_request("a@b.co", "Valid#Password1", "alice"), IP);
    assert!(matches!(a, Action::HashPassword { ref password } if password == "Valid#Password1"));
    let (f, a) = f.resume(Event::Hashed(Ok("HASH".to_string())));
    match a {
        Action::InsertUser { email, password_hash, login } => {
            assert_eq!((email.as_str(), password_hash.as_str(), login.as_str()), ("a@b.co", "HASH", "alice"));
        }
        _ => panic!(),
    }
    let (f, a) = f.resume(Event::UserInserted(Ok((77, "alice".to_string()))));
    assert!(matches!(a, Action::InsertDefaultRole { user_id: 77 }));
    let (f, a) = f.resume(Event::RoleInserted(Ok(Some(1))));
    match a {
        Action::InsertLog { entry } => {
            assert_eq!(entry.action_type, LogAction::Create);
            assert_eq!(entry.entity_type, LogEntity::User);
            assert_eq!(entry.user_id, Some(77));
            assert_eq!(entry.entity_id, Some(77));
            assert_eq!(entry.ip_address, Some(IP));
            assert_eq!(entry.new_values.as_deref(), Some("{\"email\":\"a@b.co\",\"login\":\"alice\"}"));
        }
        _ => panic!(),
    }
    let (f, a) = f.resume(Event::Done(Ok(())));
    assert!(matches!(a, Action::Commit));
    let (f, a) = f.resume(Event::Done(Ok(())));
    assert!(matches!(a, Action::CreateSession { user_id: 77, ip_address: Some(IP) }));
    let (f, a) = f.resume(Event::SessionCreated(Ok("REFRESH".to_string())));
    assert!(matches!(a, Action::CreateAccessToken { user_id: 77, ref role } if role == "user"));
    let (_, a) = f.resume(Event::TokenCreated(Ok("ACCESS".to_string())));
    match a {
        Action::Respond { reply } => {
            assert_eq!(reply.status(), 201);
            match reply {
                Reply::Registered { body, cookie } => {
                    assert_eq!(body.user_id, 77);
                    assert_eq!(body.login, "alice");
                    assert_eq!(body.access_token.as_deref(), Some("ACCESS"));
                    let c = cookie.unwrap();
                    assert_eq!(c.value, "REFRESH");
                    assert_eq!(c.max_age_seconds, 30 * 86400);
                }
                _ => panic!(),
            }
        }
        _ => panic!(),
    }
}

#[test]
fn register_without_session_still_succeeds() {
    let (f, _) = Register::start(register_request("a@b.co", "Valid#Password1", "alice"), IP);
    let (f, _) = f.resume(Event::Hashed(Ok("H".to_string())));
    let (f, _) = f.resume(Event::UserInserted(Ok((5, "alice".to_string()))));
    let (f, _) = f.resume(Event::RoleInserted(Ok(Some(1))));
    let (f, _) = f.resume(Event::Done(Ok(())));
    let (f, _) = f.resume(Event::Done(Ok(())));
    let (_, a) = f.resume(Event::SessionCreated(Err(AppError::InternalError("Database error".to_string()))));
    match a {
        Action::Respond { reply: Reply::Registered { body, cookie } } => {
            assert!(body.access_token.is_none());
            assert!(cookie.is_none());
        }
        _ => panic!(),
    }
}

#[test]
fn register_errors() {
    let (f, _) = Register::start(register_request("a@b.co", "Valid#Password1", "alice"), IP);
    let (f2, _) = f.resume(Event::Hashed(Ok("H".to_string())));
    let (_, a) = f2.resume(Event::UserInserted(Err(DbError::Database {
        unique_violation: true,
        message: "users_email_key".to_string(),
    })));
    assert_eq!(failure(&a), (ErrorKind::Conflict, "Email already taken".to_string()));

    let (f, _) = Register::start(register_request("a@b.co", "Valid#Password1", "alice"), IP);
    let (f, _) = f.resume(Event::Hashed(Ok("H".to_string())));
    let (f, _) = f.resume(Event::UserInserted(Ok((5, "alice".to_string()))));
    let (_, a) = f.resume(Event::RoleInserted(Ok(None)));
    assert_eq!(failure(&a), (ErrorKind::InternalError, "Default role 'user' not found".to_string()));
}

#[test]
fn users_register_run() {
    let req = UsersRegisterRequest {
        email: "a@b.co".to_string(),
        password: "Valid#Password1".to_string(),
        login: "alice".to_string(),
    };
    let (f, a) = UsersRegister::start(req);
    assert!(matches!(a, Action::HashPassword { .. }));
    let (f, _) = f.resume(Event::Hashed(Ok("H".to_string())));
    let (f, _) = f.resume(Event::UserInserted(Ok((3, "alice".to_string()))));
    let (f, a) = f.resume(Event::RoleInserted(Ok(Some(1))));
    assert!(matches!(a, Action::Commit));
    let (_, a) = f.resume(Event::Done(Ok(())));
    match a {
        Action::Respond { reply: Reply::UsersRegistered { body } } => {
            assert_eq!((body.user_id, body.login.as_str()), (3, "alice"));
        }
        _ => panic!(),
    }
}

#[test]
fn login_with_wrong_password_opens_no_session() {
    let req = LoginRequest { email: "a@b.co".to_string(), password: "pw".to_string() };
    let (f, a) = Login::start(req, IP);
    assert!(matches!(a, Action::FindCredentials { ref email } if email == "a@b.co"));
    let (f, a) = f.resume(Event::Credentials(Ok((9, "HASH".to_string()))));
    assert!(matches!(a, Action::VerifyPassword { ref password, ref hash } if password == "pw" && hash == "HASH"));
    let (_, a) = f.resume(Event::Verified(Ok(false)));
    assert_eq!(failure(&a), (ErrorKind::Unauthorized, "Invalid email or password".to_string()));
}

#[test]
fn login_unknown_email_is_not_found() {
    let req = LoginRequest { email: "a@b.co".to_string(), password: "pw".to_string() };
    let (f, _) = Login::start(req, IP);
    let (_, a) = f.resume(Event::Credentials(Err(DbError::RowNotFound)));
    assert_eq!(failure(&a), (ErrorKind::NotFound, "Resource not found".to_string()));
}

#[test]
fn login_full_run() {
    let req = LoginRequest { email: "a@b.co".to_string(), password: "pw".to_string() };
    let (f, _) = Login::start(req, IP);
    let (f, _) = f.resume(Event::Credentials(Ok((9, "HASH".to_string()))));
    let (f, a) = f.resume(Event::Verified(Ok(true)));
    assert!(matches!(a, Action::FindRole { user_id: 9 }));
    let (f, a) = f.resume(Event::Role(Ok("admin".to_string())));
    assert!(matches!(a, Action::CreateSession { user_id: 9, ip_address: Some(IP) }));
    let (f, a) = f.resume(Event::SessionCreated(Ok("R".to_string())));
    assert!(matches!(a, Action::CreateAccessToken { user_id: 9, ref role } if role == "admin"));
    let (_, a) = f.resume(Event::TokenCreated(Ok("A".to_string())));
    match a {
        Action::Respond { reply: Reply::LoggedIn { body, cookie } } => {
            assert_eq!((body.user_id, body.role.as_str(), body.access_token.as_str()), (9, "admin", "A"));
            assert_eq!(cookie.value, "R");
            assert_eq!(cookie.name, "refresh_token");
            assert_eq!(cookie.path, "/auth");
            assert!(cookie.http_only && cookie.secure && cookie.same_site_strict);
        }
        _ => panic!(),
    }
}

#[test]
fn users_login_run() {
    let req = UsersLoginRequest { email: "a@b.co".to_string(), password: "pw".to_string() };
    let (f, _) = UsersLogin::start(req);
    let (f, _) = f.resume(Event::Credentials(Ok((4, "H".to_string()))));
    let (f, a) = f.resume(Event::Verified(Ok(true)));
    assert!(matches!(a, Action::FindUserRole { user_id: 4 }));
    let (_, a) = f.resume(Event::Role(Ok("user".to_string())));
    match a {
        Action::Respond { reply: Reply::UsersLoggedIn { body } } => {
            assert_eq!((body.user_id, body.role.as_str()), (4, "user"));
        }
        _ => panic!(),
    }
    let bad = UsersLoginRequest { email: "x".to_string(), password: "pw".to_string() };
    let (_, a) = UsersLogin::start(bad);
    assert_eq!(failure(&a), (ErrorKind::BadRequest, "Invalid email format".to_string()));
}

#[test]
fn refresh_rotates_the_token() {
    let (_, a) = Refresh::start(None);
    assert_eq!(failure(&a), (ErrorKind::Unauthorized, "Missing refresh token".to_string()));

    let (f, a) = Refresh::start(Some("old-token".to_string()));
    match a {
        Action::FindSession { token_hash } => assert_eq!(token_hash, hash_refresh_token("old-token")),
        _ => panic!(),
    }
    let (f2, _) = Refresh::start(Some("old-token".to_string()));
    let (_, a) = f2.resume(Event::Session(Ok(None)));
    assert_eq!(failure(&a), (ErrorKind::Unauthorized, "Invalid or expired refresh token".to_string()));

    let (f, a) = f.resume(Event::Session(Ok(Some((11, 22, "user".to_string())))));
    let stored = match a {
        Action::RotateSession { session_id, token_hash, .. } => {
            assert_eq!(session_id, 11);
            token_hash
        }
        _ => panic!(),
    };
    let (f, a) = f.resume(Event::Done(Ok(())));
    assert!(matches!(a, Action::Commit));
    let (f, a) = f.resume(Event::Done(Ok(())));
    assert!(matches!(a, Action::CreateAccessToken { user_id: 22, ref role } if role == "user"));
    let (_, a) = f.resume(Event::TokenCreated(Ok("A".to_string())));
    match a {
        Action::Respond { reply: Reply::Refreshed { body, cookie } } => {
            assert_eq!(body.access_token, "A");
            assert_eq!(hash_refresh_token(&cookie.value), stored);
            assert_ne!(cookie.value, "old-token");
        }
        _ => panic!(),
    }
}

#[test]
fn logout_revokes_by_hash_and_clears_cookie() {
    let (f, a) = Logout::start(Some("tok".to_string()));
    match a {
        Action::RevokeSession { token_hash } => assert_eq!(token_hash, hash_refresh_token("tok")),
        _ => panic!(),
    }
    let (_, a) = f.resume(Event::Done(Ok(())));
    match a {
        Action::Respond { reply } => {
            assert_eq!(reply.status(), 200);
            match reply {
                Reply::LoggedOut { cookie } => {
                    assert_eq!(cookie.value, "");
                    assert_eq!(cookie.max_age_seconds, 0);
                }
                _ => panic!(),
            }
        }
        _ => panic!(),
    }
    let (_, a) = Logout::start(None);
    assert!(matches!(a, Action::Respond { reply: Reply::LoggedOut { .. } }));
}

#[test]
fn change_password_flow() {
    let req = ChangePasswordRequest { current_password: "old".to_string(), new_password: "weak".to_string() };
    let (_, a) = ChangePassword::start(1, req);
    assert_eq!(failure(&a), (ErrorKind::BadRequest, "Password must be at least 12 characters".to_string()));

    let req = || ChangePasswordRequest {
        current_password: "old".to_string(),
        new_password: "New#Password123".to_string(),
    };
    let (f, _) = ChangePassword::start(1, req());
    let (_, a) = f.resume(Event::PasswordHash(Ok(None)));
    assert_eq!(failure(&a), (ErrorKind::NotFound, "User not found".to_string()));

    let (f, _) = ChangePassword::start(1, req());
    let (f, _) = f.resume(Event::PasswordHash(Ok(Some("H".to_string()))));
    let (_, a) = f.resume(Event::Verified(Ok(false)));
    assert_eq!(failure(&a), (ErrorKind::Unauthorized, "Current password is incorrect".to_string()));

    let (f, a) = ChangePassword::start(1, req());
    assert!(matches!(a, Action::FindPasswordHash { user_id: 1 }));
    let (f, a) = f.resume(Event::PasswordHash(Ok(Some("H".to_string()))));
    assert!(matches!(a, Action::VerifyPassword { ref password, .. } if password == "old"));
    let (f, a) = f.resume(Event::Verified(Ok(true)));
    assert!(matches!(a, Action::HashPassword { ref password } if password == "New#Password123"));
    let (f, a) = f.resume(Event::Hashed(Ok("NEWHASH".to_string())));
    assert!(matches!(a, Action::UpdatePassword { user_id: 1, ref password_hash } if password_hash == "NEWHASH"));
    let (f, a) = f.resume(Event::Done(Ok(())));
    assert!(matches!(a, Action::RevokeUserSessions { user_id: 1 }));
    let (f, a) = f.resume(Event::Done(Ok(())));
    assert!(matches!(a, Action::Commit));
    let (_, a) = f.resume(Event::Done(Ok(())));
    match a {
        Action::Respond { reply: Reply::PasswordChanged { body } } => {
            assert_eq!(body.message, "Password updated, please log in again");
        }
        _ => panic!(),
    }
}

#[test]
fn delete_user_flow() {
    let req = || DeleteUserRequest { current_password: "pw".to_string() };
    let (f, a) = DeleteUser::start(8, req());
    assert!(matches!(a, Action::FindPasswordHash { user_id: 8 }));
    let (f, _) = f.resume(Event::PasswordHash(Ok(Some("H".to_string()))));
    let (f, a) = f.resume(Event::Verified(Ok(true)));
    match a {
        Action::InsertLog { entry } => {
            assert_eq!(entry.action_type, LogAction::Delete);
            assert_eq!(entry.user_id, Some(8));
            assert_eq!(entry.entity_id, Some(8));
        }
        _ => panic!(),
    }
    let (f, a) = f.resume(Event::Done(Ok(())));
    assert!(matches!(a, Action::DeleteUser { user_id: 8 }));
    let (f, a) = f.resume(Event::Deleted(Ok(1)));
    assert!(matches!(a, Action::Commit));
    let (_, a) = f.resume(Event::Done(Ok(())));
    match a {
        Action::Respond { reply } => {
            assert_eq!(reply.status(), 204);
            assert!(matches!(reply, Reply::UserDeleted { .. }));
        }
        _ => panic!(),
    }

    let (f, _) = DeleteUser::start(8, req());
    let (f, _) = f.resume(Event::PasswordHash(Ok(Some("H".to_string()))));
    let (f, _) = f.resume(Event::Verified(Ok(true)));
    let (f, _) = f.resume(Event::Done(Ok(())));
    let (_, a) = f.resume(Event::Deleted(Ok(0)));
    assert_eq!(failure(&a), (ErrorKind::NotFound, "User not found".to_string()));

    let (f, _) = DeleteUser::start(8, req());
    let (f, _) = f.resume(Event::PasswordHash(Ok(Some("H".to_string()))));
    let (_, a) = f.resume(Event::Verified(Ok(false)));
    assert_eq!(failure(&a), (ErrorKind::Unauthorized, "Current password is incorrect".to_string()));
}

#[test]
fn change_login_flow() {
    let (_, a) = ChangeLogin::start(1, ChangeLoginRequest { new_login: "x".to_string() });
    assert_eq!(failure(&a), (ErrorKind::BadRequest, "Login must be at least 3 characters".to_string()));

    let req = || ChangeLoginRequest { new_login: "bob_2".to_string() };
    let (f, a) = ChangeLogin::start(1, req());
    assert!(matches!(a, Action::UpdateLogin { user_id: 1, ref login } if login == "bob_2"));
    let (_, a) = f.resume(Event::LoginUpdated(Err(DbError::Database {
        unique_violation: true,
        message: "users_login_key".to_string(),
    })));
    assert_eq!(failure(&a), (ErrorKind::Conflict, "This login is already taken".to_string()));

    let (f, _) = ChangeLogin::start(1, req());
    let (_, a) = f.resume(Event::LoginUpdated(Err(DbError::Other)));
    assert_eq!(failure(&a), (ErrorKind::InternalError, "Database error".to_string()));

    let (f, _) = ChangeLogin::start(1, req());
    let (_, a) = f.resume(Event::LoginUpdated(Ok(None)));
    assert_eq!(failure(&a), (ErrorKind::NotFound, "User not found".to_string()));

    let (f, _) = ChangeLogin::start(1, req());
    let (f, a) = f.resume(Event::LoginUpdated(Ok(Some("bob_2".to_string()))));
    assert!(matches!(a, Action::Commit));
    let (_, a) = f.resume(Event::Done(Ok(())));
    match a {
        Action::Respond { reply: Reply::LoginChanged { body } } => assert_eq!(body.login, "bob_2"),
        _ => panic!(),
    }
}

#[test]
fn me_answers_the_token_user() {
    let r = me(AuthUser { user_id: 5, role: "user".to_string() });
    assert_eq!((r.user_id, r.role.as_str()), (5, "user"));
}

#[test]
fn cookies() {
    let c = refresh_cookie("v".to_string());
    assert_eq!((c.name.as_str(), c.value.as_str(), c.path.as_str()), ("refresh_token", "v", "/auth"));
    assert_eq!(c.max_age_seconds, 2_592_000);
    let e = expired_refresh_cookie();
    assert_eq!((e.name.as_str(), e.value.as_str(), e.max_age_seconds), ("refresh_token", "", 0));
    assert!(e.http_only && e.secure && e.same_site_strict);
}

#[test]
fn open_session_at_the_cap_revokes_the_oldest_first() {
    let (f, a) = OpenSession::start(3, Some(IP), None);
    assert!(matches!(a, SessionAction::CountActive { user_id: 3 }));
    let (f, a) = f.resume(SessionEvent::Counted(Ok(5)));
    assert!(matches!(a, SessionAction::RevokeOldest { user_id: 3 }));
    let (f, a) = f.resume(SessionEvent::Done(Ok(())));
    let stored = match a {
        SessionAction::Insert { user_id, token_hash, ip_address, user_agent, .. } => {
            assert_eq!(user_id, 3);
            assert_eq!(ip_address, Some(IP));
            assert_eq!(user_agent, None);
            token_hash
        }
        _ => panic!(),
    };
    let (_, a) = f.resume(SessionEvent::Done(Ok(())));
    match a {
        SessionAction::Finish { result: Ok(raw) } => assert_eq!(hash_refresh_token(&raw), stored),
        _ => panic!(),
    }
}

#[test]
fn open_session_below_the_cap_inserts_directly() {
    let (f, _) = OpenSession::start(3, None, Some("agent".to_string()));
    let (f, a) = f.resume(SessionEvent::Counted(Ok(4)));
    match a {
        SessionAction::Insert { user_agent, .. } => assert_eq!(user_agent.as_deref(), Some("agent")),
        _ => panic!(),
    }
    let (_, a) = f.resume(SessionEvent::Done(Err(DbError::Other)));
    match a {
        SessionAction::Finish { result: Err(e) } => assert_eq!(e.kind(), ErrorKind::InternalError),
        _ => panic!(),
    }
}
