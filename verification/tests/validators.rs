use api::errors::{AppError, ErrorKind};
use api::utils::validators::email::validate_email;
use api::utils::validators::login::validate_login;
use api::utils::validators::password::{is_special, validate_password};
use api::handler::auth::register::validate_registration;

fn bad_request(r: Result<(), AppError>) -> String {
    match r {
        Err(AppError::BadRequest(m)) => m,
        Err(e) => panic!("unexpected error {:?}", e),
        Ok(()) => panic!("expected an error"),
    }
}

#[test]
fn email_accepts_well_formed_addresses() {
    assert!(validate_email("user@example.com").is_ok());
    assert!(validate_email("a@b.c").is_ok());
    assert!(validate_email("first.last@sub.example.org").is_ok());
    assert!(validate_email("ünï@çödé.fr").is_ok());
}

#[test]
fn email_rejects_malformed_addresses() {
    for bad in [
        "",
        "userexample.com",
        "@example.com",
        "user@",
        "user@example",
        "user@.example.com",
        "user@example.com.",
        "a@b@c.com",
        "user@.",
        "user@@example.com",
    ] {
        assert_eq!(bad_request(validate_email(bad)), "Invalid email format", "{bad}");
    }
}

#[test]
fn login_length_is_counted_in_bytes() {
    assert_eq!(bad_request(validate_login("ab")), "Login must be at least 3 characters");
    assert!(validate_login("abc").is_ok());
    // Two characters, four bytes: long enough.
    assert!(validate_login("éé").is_ok());
    // One character, two bytes: too short.
    assert_eq!(bad_request(validate_login("é")), "Login must be at least 3 characters");
    assert!(validate_login(&"a".repeat(30)).is_ok());
    assert_eq!(bad_request(validate_login(&"a".repeat(31))), "Login must be at most 30 characters");
    // Sixteen characters, thirty-two bytes.
    assert_eq!(bad_request(validate_login(&"é".repeat(16))), "Login must be at most 30 characters");
}

#[test]
fn login_charset() {
    assert!(validate_login("user_name_42").is_ok());
    assert!(validate_login("Ünïcödé").is_ok());
    for bad in ["user-name", "user name", "user.name", "user@x", "abc!"] {
        assert_eq!(
            bad_request(validate_login(bad)),
            "Login can only contain letters, numbers and underscores",
            "{bad}"
        );
    }
}

#[test]
fn password_rules_in_order() {
    assert_eq!(bad_request(validate_password("Short1!")), "Password must be at least 12 characters");
    assert_eq!(
        bad_request(validate_password("alllowercase1!")),
        "Password must contain at least one uppercase letter"
    );
    assert_eq!(
        bad_request(validate_password("ALLUPPERCASE1!")),
        "Password must contain at least one lowercase letter"
    );
    assert_eq!(bad_request(validate_password("NoNumbersHere!")), "Password must contain at least one number");
    assert_eq!(
        bad_request(validate_password("NoSpecial12345")),
        "Password must contain at least one special character"
    );
    assert!(validate_password("Valid#Password1").is_ok());
    // A short password is reported as short even when it breaks other rules.
    assert_eq!(bad_request(validate_password("aaaa")), "Password must be at least 12 characters");
}

#[test]
fn special_characters() {
    for c in "!@#$%^&*()_+-=[]{}|;':\",./<>?".chars() {
        assert!(is_special(c), "{c}");
    }
    for c in ['a', 'Z', '0', ' ', '~', '`', '\\', 'é'] {
        assert!(!is_special(c), "{c}");
    }
}

#[test]
fn registration_reports_the_first_failing_field() {
    let r = validate_registration("bad", "x", "y");
    assert_eq!(bad_request(r), "Invalid email format");
    let r = validate_registration("a@b.co", "x", "y");
    assert_eq!(bad_request(r), "Login must be at least 3 characters");
    let r = validate_registration("a@b.co", "alice", "y");
    assert_eq!(bad_request(r), "Password must be at least 12 characters");
    assert!(validate_registration("a@b.co", "alice", "Valid#Password1").is_ok());
    match validate_registration("bad", "alice", "Valid#Password1") {
        Err(e) => assert_eq!(e.kind(), ErrorKind::BadRequest),
        Ok(()) => panic!(),
    }
}
