//! E-mail address format check.

use vstd::prelude::*;
use crate::errors::{AppError, bad_request, check_view};
use crate::text::chars_of;

verus! {

broadcast use vstd::string::to_string_from_display_ensures_for_str;

/// Message of the error for a malformed e-mail address.
pub open spec fn invalid_email_message() -> Seq<char> {
    "Invalid email format"@
}

/// Position `i` holds the only `@` of `s`.
pub open spec fn sole_at(s: Seq<char>, i: int) -> bool {
    &&& 0 <= i < s.len()
    &&& s[i] == '@'
    &&& forall|j: int| 0 <= j < s.len() && j != i ==> s[j] != '@'
}

/// A domain part contains a dot and neither starts nor ends with one.
pub open spec fn valid_domain(d: Seq<char>) -> bool {
    &&& d.contains('.')
    &&& d[0] != '.'
    &&& d.last() != '.'
}

/// An address is well formed when it holds exactly one `@`, with a non-empty
/// local part before it and a valid domain after it.
pub open spec fn valid_email(s: Seq<char>) -> bool {
    exists|i: int| #[trigger] sole_at(s, i) && 0 < i && valid_domain(s.subrange(i + 1, s.len() as int))
}

/// What `validate_email` answers for an address.
pub open spec fn email_check(s: Seq<char>) -> Result<(), (crate::errors::ErrorKind, Seq<char>)> {
    if valid_email(s) {
        Ok(())
    } else {
        Err(bad_request(invalid_email_message()))
    }
}

/// Checks that `email` is shaped like an e-mail address: one `@`, something
/// before it, and after it a domain with a dot that is neither its first nor
/// its last character.
pub fn validate_email(email: &str) -> (r: Result<(), AppError>)
    ensures
        check_view(r) == email_check(email@),
{
    let cs = chars_of(email);
    let n: usize = cs.len();
    let mut p: usize = 0;
    while p < n && cs[p] != '@'
        invariant
            cs@ == email@,
            n == cs.len(),
            p <= n,
            forall|j: int| 0 <= j < p ==> cs@[j] != '@',
        decreases n - p,
    {
        p = p + 1;
    }
    if p == n {
        assert forall|i: int| !#[trigger] sole_at(email@, i) by {}
        return Err(AppError::BadRequest("Invalid email format".to_string()));
    }
    let mut q: usize = p + 1;
    while q < n && cs[q] != '@'
        invariant
            cs@ == email@,
            n == cs.len(),
            p < q <= n,
            forall|j: int| p < j < q ==> cs@[j] != '@',
        decreases n - q,
    {
        q = q + 1;
    }
    if q < n {
        assert forall|i: int| !#[trigger] sole_at(email@, i) by {
            if sole_at(email@, i) {
                assert(i == p as int);
                assert(cs@[q as int] == '@');
            }
        }
        return Err(AppError::BadRequest("Invalid email format".to_string()));
    }
    assert(sole_at(email@, p as int));
    assert forall|i: int| #[trigger] sole_at(email@, i) implies i == p as int by {
        if i != p as int {
            assert(email@[p as int] == '@');
        }
    }
    let ghost d = email@.subrange(p + 1, n as int);
    let mut has_dot = false;
    let mut k: usize = p + 1;
    while k < n
        invariant
            cs@ == email@,
            n == cs.len(),
            p < k <= n,
            d == email@.subrange(p + 1, n as int),
            has_dot <==> exists|m: int| p < m < k && cs@[m] == '.',
        decreases n - k,
    {
        if cs[k] == '.' {
            has_dot = true;
        }
        k = k + 1;
    }
    assert(has_dot <==> d.contains('.')) by {
        if has_dot {
            let m: int = choose|m: int| p < m < n && cs@[m] == '.';
            assert(d[m - p - 1] == '.');
        }
        if d.contains('.') {
            let m: int = choose|m: int| 0 <= m < d.len() && d[m] == '.';
            assert(cs@[m + p + 1] == '.');
        }
    }
    let ok = p > 0 && has_dot && cs[p + 1] != '.' && cs[n - 1] != '.';
    if ok {
        assert(valid_domain(d));
        Ok(())
    } else {
        assert(!valid_email(email@));
        Err(AppError::BadRequest("Invalid email format".to_string()))
    }
}

} // verus!
