//! Password strength check.

use vstd::prelude::*;
use crate::errors::{AppError, ErrorKind, bad_request, check_view};
use crate::text::{
    byte_len, chars_of, char_lowercase, char_numeric, char_uppercase, is_lowercase, is_numeric, is_uppercase,
};

verus! {

broadcast use vstd::string::to_string_from_display_ensures_for_str;

/// Message of the error for a password shorter than 12 bytes.
pub open spec fn password_too_short_message() -> Seq<char> {
    "Password must be at least 12 characters"@
}

/// Message of the error for a password without an upper-case letter.
pub open spec fn password_uppercase_message() -> Seq<char> {
    "Password must contain at least one uppercase letter"@
}

/// Message of the error for a password without a lower-case letter.
pub open spec fn password_lowercase_message() -> Seq<char> {
    "Password must contain at least one lowercase letter"@
}

/// Message of the error for a password without a digit.
pub open spec fn password_number_message() -> Seq<char> {
    "Password must contain at least one number"@
}

/// Message of the error for a password without a special character.
pub open spec fn password_special_message() -> Seq<char> {
    "Password must contain at least one special character"@
}

/// The special characters a password must draw at least one from:
/// `!@#$%^&*()_+-=[]{}|;':",./<>?`
pub open spec fn special_char(c: char) -> bool {
    ||| c == '!' ||| c == '@' ||| c == '#' ||| c == '$' ||| c == '%' ||| c == '^'
    ||| c == '&' ||| c == '*' ||| c == '(' ||| c == ')' ||| c == '_' ||| c == '+'
    ||| c == '-' ||| c == '=' ||| c == '[' ||| c == ']' ||| c == '{' ||| c == '}'
    ||| c == '|' ||| c == ';' ||| c == '\'' ||| c == ':' ||| c == '"' ||| c == ','
    ||| c == '.' ||| c == '/' ||| c == '<' ||| c == '>' ||| c == '?'
}

/// Whether `c` is one of the special characters of [`special_char`].
pub fn is_special(c: char) -> (r: bool)
    ensures
        r == special_char(c),
{
    match c {
        '!' | '@' | '#' | '$' | '%' | '^' | '&' | '*' | '(' | ')' | '_' | '+' | '-' | '='
        | '[' | ']' | '{' | '}' | '|' | ';' | '\'' | ':' | '"' | ',' | '.' | '/' | '<' | '>'
        | '?' => true,
        _ => false,
    }
}

/// Some character of `s` is upper case.
pub open spec fn has_uppercase(s: Seq<char>) -> bool {
    exists|i: int| 0 <= i < s.len() && #[trigger] char_uppercase(s[i])
}

/// Some character of `s` is lower case.
pub open spec fn has_lowercase(s: Seq<char>) -> bool {
    exists|i: int| 0 <= i < s.len() && #[trigger] char_lowercase(s[i])
}

/// Some character of `s` is numeric.
pub open spec fn has_numeric(s: Seq<char>) -> bool {
    exists|i: int| 0 <= i < s.len() && #[trigger] char_numeric(s[i])
}

/// Some character of `s` is a special character.
pub open spec fn has_special(s: Seq<char>) -> bool {
    exists|i: int| 0 <= i < s.len() && #[trigger] special_char(s[i])
}

/// What `validate_password` answers: at least 12 bytes, then an upper-case
/// letter, a lower-case letter, a digit and a special character, each rule
/// checked in that order and the first one broken reported.
pub open spec fn password_check(s: Seq<char>) -> Result<(), (ErrorKind, Seq<char>)> {
    if byte_len(s) < 12 {
        Err(bad_request(password_too_short_message()))
    } else if !has_uppercase(s) {
        Err(bad_request(password_uppercase_message()))
    } else if !has_lowercase(s) {
        Err(bad_request(password_lowercase_message()))
    } else if !has_numeric(s) {
        Err(bad_request(password_number_message()))
    } else if !has_special(s) {
        Err(bad_request(password_special_message()))
    } else {
        Ok(())
    }
}

/// A password shorter than 12 bytes is refused as too short, whatever else it
/// holds; a password is accepted exactly when it is at least 12 bytes long and
/// has an upper-case letter, a lower-case letter, a digit and a special character.
pub proof fn law_password_policy(s: Seq<char>)
    ensures
        byte_len(s) < 12 ==> password_check(s) == Err::<(), (ErrorKind, Seq<char>)>(
            (ErrorKind::BadRequest, "Password must be at least 12 characters"@),
        ),
        password_check(s) is Ok <==> {
            &&& byte_len(s) >= 12
            &&& exists|i: int| 0 <= i < s.len() && #[trigger] char_uppercase(s[i])
            &&& exists|i: int| 0 <= i < s.len() && #[trigger] char_lowercase(s[i])
            &&& exists|i: int| 0 <= i < s.len() && #[trigger] char_numeric(s[i])
            &&& exists|i: int| 0 <= i < s.len() && #[trigger] special_char(s[i])
        },
{
}

/// Checks that a password follows the password policy (see [`password_check`]).
pub fn validate_password(password: &str) -> (r: Result<(), AppError>)
    ensures
        check_view(r) == password_check(password@),
{
    if password.len() < 12 {
        return Err(AppError::BadRequest("Password must be at least 12 characters".to_string()));
    }
    let cs = chars_of(password);
    let n: usize = cs.len();
    let ghost s = password@;
    let mut upper = false;
    let mut lower = false;
    let mut number = false;
    let mut special = false;
    let mut i: usize = 0;
    while i < n
        invariant
            cs@ == s,
            s == password@,
            n == cs.len(),
            i <= n,
            upper <==> exists|j: int| 0 <= j < i && #[trigger] char_uppercase(s[j]),
            lower <==> exists|j: int| 0 <= j < i && #[trigger] char_lowercase(s[j]),
            number <==> exists|j: int| 0 <= j < i && #[trigger] char_numeric(s[j]),
            special <==> exists|j: int| 0 <= j < i && #[trigger] special_char(s[j]),
        decreases n - i,
    {
        let c: char = cs[i];
        if is_uppercase(c) {
            upper = true;
        }
        if is_lowercase(c) {
            lower = true;
        }
        if is_numeric(c) {
            number = true;
        }
        if is_special(c) {
            special = true;
        }
        i = i + 1;
    }
    if !upper {
        return Err(
            AppError::BadRequest("Password must contain at least one uppercase letter".to_string()),
        );
    }
    if !lower {
        return Err(
            AppError::BadRequest("Password must contain at least one lowercase letter".to_string()),
        );
    }
    if !number {
        return Err(AppError::BadRequest("Password must contain at least one number".to_string()));
    }
    if !special {
        return Err(
            AppError::BadRequest("Password must contain at least one special character".to_string()),
        );
    }
    Ok(())
}

} // verus!
