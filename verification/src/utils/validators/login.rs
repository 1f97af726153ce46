//! Login (user name) format check.

use vstd::prelude::*;
use crate::errors::{AppError, ErrorKind, bad_request, check_view};
use crate::text::{byte_len, chars_of, char_alphanumeric, is_alphanumeric};

verus! {

broadcast use vstd::string::to_string_from_display_ensures_for_str;

/// Message of the error for a login shorter than 3 bytes.
pub open spec fn login_too_short_message() -> Seq<char> {
    "Login must be at least 3 characters"@
}

/// Message of the error for a login longer than 30 bytes.
pub open spec fn login_too_long_message() -> Seq<char> {
    "Login must be at most 30 characters"@
}

/// Message of the error for a login with a character other than a letter, digit or `_`.
pub open spec fn login_charset_message() -> Seq<char> {
    "Login can only contain letters, numbers and underscores"@
}

/// A character a login may hold: a Unicode letter or digit, or `_`.
pub open spec fn login_char(c: char) -> bool {
    char_alphanumeric(c) || c == '_'
}

/// What `validate_login` answers: the length, counted in UTF-8 bytes, must be
/// between 3 and 30, then every character must be a letter, a digit or `_`.
pub open spec fn login_check(login: Seq<char>) -> Result<(), (ErrorKind, Seq<char>)> {
    if byte_len(login) < 3 {
        Err(bad_request(login_too_short_message()))
    } else if byte_len(login) > 30 {
        Err(bad_request(login_too_long_message()))
    } else if !(forall|i: int| 0 <= i < login.len() ==> #[trigger] login_char(login[i])) {
        Err(bad_request(login_charset_message()))
    } else {
        Ok(())
    }
}

/// A login is accepted exactly when it is 3 to 30 bytes long and made of
/// letters, digits and underscores; a shorter one is refused as too short and
/// a longer one as too long.
pub proof fn law_login_policy(s: Seq<char>)
    ensures
        (login_check(s) is Ok) <==> (3 <= byte_len(s) <= 30 && forall|i: int|
            #![trigger s[i]]
            0 <= i < s.len() ==> char_alphanumeric(s[i]) || s[i] == '_'),
        byte_len(s) < 3 ==> login_check(s) == Err::<(), (ErrorKind, Seq<char>)>(
            (ErrorKind::BadRequest, "Login must be at least 3 characters"@),
        ),
        byte_len(s) > 30 ==> login_check(s) == Err::<(), (ErrorKind, Seq<char>)>(
            (ErrorKind::BadRequest, "Login must be at most 30 characters"@),
        ),
{
    if forall|i: int| 0 <= i < s.len() ==> #[trigger] login_char(s[i]) {
        assert forall|i: int| 0 <= i < s.len() implies char_alphanumeric(#[trigger] s[i]) || s[i]
            == '_' by {
            assert(login_char(s[i]));
        }
    }
    if forall|i: int| #![trigger s[i]] 0 <= i < s.len() ==> char_alphanumeric(s[i]) || s[i] == '_' {
        assert forall|i: int| 0 <= i < s.len() implies #[trigger] login_char(s[i]) by {
            assert(char_alphanumeric(s[i]) || s[i] == '_');
        }
    }
}

/// Checks that a login is 3 to 30 bytes long and made of letters, digits and underscores.
pub fn validate_login(login: &str) -> (r: Result<(), AppError>)
    ensures
        check_view(r) == login_check(login@),
{
    if login.len() < 3 {
        return Err(AppError::BadRequest("Login must be at least 3 characters".to_string()));
    }
    if login.len() > 30 {
        return Err(AppError::BadRequest("Login must be at most 30 characters".to_string()));
    }
    let cs = chars_of(login);
    let n: usize = cs.len();
    let mut i: usize = 0;
    while i < n
        invariant
            cs@ == login@,
            n == cs.len(),
            i <= n,
            3 <= login.len() <= 30,
            forall|j: int| 0 <= j < i ==> #[trigger] login_char(login@[j]),
        decreases n - i,
    {
        let c: char = cs[i];
        if !(is_alphanumeric(c) || c == '_') {
            assert(!login_char(login@[i as int]));
            return Err(
                AppError::BadRequest(
                    "Login can only contain letters, numbers and underscores".to_string(),
                ),
            );
        }
        i = i + 1;
    }
    Ok(())
}

} // verus!
