//! The bearer guard for service-to-service requests.
//!
//! A request carries `Authorization: Bearer <first-party token>`. The token
//! is decoded under the shared secret and nothing else is tried: this path
//! has no session record, no carrier and no refresh. Any failure rejects
//! the request.

use crate::claims::{Claims, ClaimsView};
use crate::clock::{current_timestamp, on_the_clock};
use crate::codec::{decode_outcome, outcome_view};
use crate::error::{AuthenticationError, AuthenticationErrorView};
use crate::text::{bare, slice_view, strip_prefix, trim, trimmed};
use vstd::prelude::*;
use vstd::string::*;

verus! {

/// The prefix that marks a bearer credential.
pub open spec fn bearer() -> Seq<char> {
    "Bearer "@
}

/// The token that an `Authorization` value presents: what follows the
/// bearer prefix, trimmed. A value without the prefix presents none.
pub open spec fn presented_token(value: Seq<char>) -> Option<Seq<char>> {
    if bearer().is_prefix_of(value) {
        Some(trimmed(value.skip(bearer().len() as int)))
    } else {
        None
    }
}

/// What an `Authorization` value yields at the moment `now`: no credential
/// without the bearer prefix, and otherwise what the token decodes to.
pub open spec fn authorization_outcome(value: Seq<char>, secret: Seq<char>, now: int) -> Result<
    ClaimsView,
    AuthenticationErrorView,
> {
    match presented_token(value) {
        None => Err(AuthenticationErrorView::Missing),
        Some(token) => decode_outcome(token, secret, now),
    }
}

/// What a request yields at the moment `now`, given its `Authorization`
/// header if it has one.
pub open spec fn request_outcome(header: Option<Seq<char>>, secret: Seq<char>, now: int) -> Result<
    ClaimsView,
    AuthenticationErrorView,
> {
    match header {
        None => Err(AuthenticationErrorView::Missing),
        Some(value) => authorization_outcome(value, secret, now),
    }
}

/// The `Authorization` value that presents a token. What it presents is
/// the token without white space at either end: a bare token, such as the
/// issuer makes, is presented as it is.
pub fn bearer_value(token: &str) -> (value: String)
    ensures
        value@ == bearer() + token@,
        presented_token(value@) == Some(trimmed(token@)),
        bare(token@) ==> presented_token(value@) == Some(token@),
{
    let value = "Bearer ".to_owned().concat(token);
    assert(value@.skip(bearer().len() as int) =~= token@);
    value
}

impl Claims {
    /// The claims of a `Bearer <token>` value, validated under the shared
    /// secret at the moment `now`.
    pub fn from_authorization(value: &str, secret: &str, now: i64) -> (outcome: Result<
        Claims,
        AuthenticationError,
    >)
        ensures
            outcome_view(outcome) == authorization_outcome(value@, secret@, now as int),
    {
        match strip_prefix(value, "Bearer ") {
            None => Err(AuthenticationError::Missing),
            Some(rest) => {
                assert(value@.skip(bearer().len() as int) =~= rest@);
                Claims::from_token_with_secret(trim(rest), secret, now)
            },
        }
    }

    /// The claims that authorize a request, given its `Authorization`
    /// header if it has one, at the moment `now`.
    pub fn from_request(header: Option<&str>, secret: &str, now: i64) -> (outcome: Result<
        Claims,
        AuthenticationError,
    >)
        ensures
            outcome_view(outcome) == request_outcome(
                slice_view(header),
                secret@,
                now as int,
            ),
    {
        match header {
            None => Err(AuthenticationError::Missing),
            Some(value) => Claims::from_authorization(value, secret, now),
        }
    }
}

/// Authorizes a request against the clock. The outcome is that of
/// [`Claims::from_request`] at the moment the clock was read, which is a
/// moment that the clock can show.
pub fn authorize(header: Option<&str>, secret: &str) -> (outcome: Result<
    Claims,
    AuthenticationError,
>)
    ensures
        exists|now: int|
            on_the_clock(now) && outcome_view(outcome) == #[trigger] request_outcome(
                slice_view(header),
                secret@,
                now,
            ),
{
    let now = current_timestamp();
    Claims::from_request(header, secret, now)
}

/// A request is authorized only by a bearer token that decodes and has not
/// expired: without a header, or with a value that lacks the bearer prefix,
/// no credential was presented, and every other failure is the token's own.
pub proof fn lemma_bearer_fails_closed(header: Option<Seq<char>>, secret: Seq<char>, now: int)
    ensures
        header is None ==> request_outcome(header, secret, now) == Err::<
            ClaimsView,
            AuthenticationErrorView,
        >(AuthenticationErrorView::Missing),
        (header matches Some(value) && !bearer().is_prefix_of(value)) ==> request_outcome(
            header,
            secret,
            now,
        ) == Err::<ClaimsView, AuthenticationErrorView>(AuthenticationErrorView::Missing),
        request_outcome(header, secret, now) is Ok ==> (header matches Some(value)
            && presented_token(value) matches Some(token) && decode_outcome(token, secret, now)
            == request_outcome(header, secret, now)),
{
}

} // verus!
