//! The check in front of protected routes: a bearer token in the Authorization
//! header, valid under the process secret, or the request is refused.
use vstd::prelude::*;
use crate::text::{has_prefix, strip_prefix_chars};
use crate::token::{validate_at, current_time, validation_outcome, Claims, ClaimsView};

verus! {

/// The text that opens an Authorization header carrying a bearer token.
pub open spec fn bearer_prefix() -> Seq<char> {
    seq!['B', 'e', 'a', 'r', 'e', 'r', ' ']
}

/// The token that an Authorization header carries, if it carries one.
pub open spec fn bearer_of(header: Option<Seq<char>>) -> Option<Seq<char>> {
    match header {
        Some(h) => if has_prefix(h, bearer_prefix()) {
            Some(h.skip(7))
        } else {
            None
        },
        None => None,
    }
}

/// The claims a request is let through with, or nothing where it is refused.
pub open spec fn auth_outcome(header: Option<Seq<char>>, key: Seq<u8>, now: u64) -> Option<
    ClaimsView,
> {
    match bearer_of(header) {
        Some(t) => match validation_outcome(t, key, now) {
            Ok(c) => Some(c),
            Err(_) => None,
        },
        None => None,
    }
}

/// The characters of an optional header value.
pub open spec fn opt_str(o: Option<&str>) -> Option<Seq<char>> {
    match o {
        Some(s) => Some(s@),
        None => None,
    }
}

/// A request refused for want of authentication: no bearer token, or one that does not validate.
#[derive(Debug, Clone, Copy, PartialEq, Eq, Structural)]
pub struct Unauthenticated;

/// The token after `Bearer ` in an Authorization header value.
pub fn bearer_token(header: Option<&str>) -> (r: Option<String>)
    ensures
        r is Some <==> bearer_of(opt_str(header)) is Some,
        r is Some ==> bearer_of(opt_str(header)) == Some(r->Some_0@),
{
    match header {
        None => None,
        Some(h) => {
            let prefix: [char; 7] = ['B', 'e', 'a', 'r', 'e', 'r', ' '];
            proof {
                assert(prefix@ =~= bearer_prefix());
            }
            strip_prefix_chars(h, &prefix)
        },
    }
}

/// Lets a request through at time `now` if its Authorization header carries a bearer
/// token that validates under `secret`; the claims come with it.
pub fn authenticate_at(header: Option<&str>, secret: &[u8], now: u64) -> (r: Result<
    Claims,
    Unauthenticated,
>)
    ensures
        match auth_outcome(opt_str(header), secret@, now) {
            Some(c) => r is Ok && r->Ok_0@ == c,
            None => r is Err,
        },
{
    match bearer_token(header) {
        None => Err(Unauthenticated),
        Some(t) => match validate_at(t.as_str(), secret, now) {
            Ok(c) => Ok(c),
            Err(_) => Err(Unauthenticated),
        },
    }
}

/// Lets a request through at the current time, as [`authenticate_at`] does.
pub fn authenticate(header: Option<&str>, secret: &[u8]) -> (r: Result<Claims, Unauthenticated>)
    ensures
        exists|now: u64|
            match #[trigger] auth_outcome(opt_str(header), secret@, now) {
                Some(c) => r is Ok && r->Ok_0@ == c,
                None => r is Err,
            },
{
    let now = current_time();
    authenticate_at(header, secret, now)
}

} // verus!
