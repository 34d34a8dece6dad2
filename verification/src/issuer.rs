//! The session token issuer.
//!
//! A first-party token is issued for a subject and an email with a time to
//! live: its expiry is the moment of issue plus that many seconds.

use crate::claims::{Claims, ClaimsView};
use crate::clock::{current_timestamp, on_the_clock, LATEST_TIMESTAMP};
use crate::codec::{carries_claims, decode_outcome, encode, encode_outcome, issued_view};
use crate::text::bare;
use crate::error::{AuthenticationError, AuthenticationErrorView};
use vstd::prelude::*;

verus! {

/// The expiry of a token issued at `now` for `ttl` seconds, where that is a
/// timestamp at all.
pub open spec fn expiry_after(now: int, ttl: int) -> Option<int> {
    if i64::MIN <= now + ttl <= i64::MAX {
        Some(now + ttl)
    } else {
        None
    }
}

/// What issuing a token at the moment `now` yields.
pub open spec fn issue_outcome(
    sub: Seq<char>,
    email: Seq<char>,
    ttl: int,
    secret: Seq<char>,
    now: int,
) -> Result<Seq<char>, AuthenticationErrorView> {
    match expiry_after(now, ttl) {
        None => Err(AuthenticationErrorView::Issuing("ExpiryOutOfRange"@)),
        Some(exp) => encode_outcome(ClaimsView { sub, email, exp }, secret),
    }
}

/// Issues a first-party token at the moment `now`, to expire `ttl` seconds
/// later. Issuing succeeds wherever that expiry is a timestamp.
///
/// The token that comes out carries the subject, the email and that expiry:
/// it decodes under the same secret to them until the expiry is reached,
/// and as expired from then on. It is bare.
pub fn issue_at(uid: String, email: String, ttl: i64, secret: &str, now: i64) -> (outcome: Result<
    String,
    AuthenticationError,
>)
    ensures
        issued_view(outcome) == issue_outcome(uid@, email@, ttl as int, secret@, now as int),
        outcome is Ok <==> expiry_after(now as int, ttl as int) is Some,
        outcome matches Ok(token) ==> carries_claims(
            token@,
            secret@,
            ClaimsView { sub: uid@, email: email@, exp: now + ttl },
        ),
        outcome matches Ok(token) ==> bare(token@),
        outcome matches Ok(token) ==> forall|at: int|
            at < now + ttl ==> #[trigger] decode_outcome(token@, secret@, at) == Ok::<
                ClaimsView,
                AuthenticationErrorView,
            >(ClaimsView { sub: uid@, email: email@, exp: now + ttl }),
        outcome matches Ok(token) ==> forall|at: int|
            at >= now + ttl ==> #[trigger] decode_outcome(token@, secret@, at) == Err::<
                ClaimsView,
                AuthenticationErrorView,
            >(AuthenticationErrorView::Expired),
{
    match now.checked_add(ttl) {
        None => Err(AuthenticationError::Issuing("ExpiryOutOfRange".to_owned())),
        Some(exp) => {
            let claims = Claims { sub: uid, email, exp };
            encode(&claims, secret)
        },
    }
}

/// The longest time to live that leads to a timestamp whatever the clock
/// shows.
pub open spec fn longest_ttl() -> int {
    i64::MAX - LATEST_TIMESTAMP
}

/// Issues a first-party token now, to expire `exp` seconds from now. The
/// outcome is that of [`issue_at`] at the moment the clock was read, which
/// is a moment that the clock can show.
///
/// Issuing succeeds for every time to live up to the longest; beyond it,
/// whether the expiry is still a timestamp depends on the clock. The token
/// that comes out carries the subject, the email and the expiry, and is
/// bare.
pub fn create_jwt(uid: String, email: String, exp: i64, secret: &str) -> (outcome: Result<
    String,
    AuthenticationError,
>)
    ensures
        exists|now: int|
            on_the_clock(now) && issued_view(outcome) == #[trigger] issue_outcome(
                uid@,
                email@,
                exp as int,
                secret@,
                now,
            ) && (outcome matches Ok(token) ==> carries_claims(
                token@,
                secret@,
                ClaimsView { sub: uid@, email: email@, exp: now + exp },
            )),
        exp <= longest_ttl() ==> outcome is Ok,
        outcome matches Ok(token) ==> bare(token@),
{
    let now = current_timestamp();
    issue_at(uid, email, exp, secret, now)
}

} // verus!
