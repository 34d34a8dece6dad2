//! The claims codec: first-party tokens, signed with a shared secret.
//!
//! A first-party token is valid exactly when it verifies under the shared
//! secret, its payload holds a subject, an email and an expiry, and the
//! expiry is strictly later than the moment of validation. A token that
//! fails the first two tests is a decoding failure; one that passes them
//! and fails the third is expired. The two are kept apart because they call
//! for opposite reactions: an expired session is refreshed, an undecodable
//! one is torn down.

use crate::claims::{Claims, ClaimsView};
use crate::clock::{current_timestamp, on_the_clock};
use crate::error::{AuthenticationError, AuthenticationErrorView};
use crate::json::{integer_member, json_integers, json_strings, string_member};
use crate::jwt::{
    carries, hs256, sign_object, signed_object, verified_payload, verify_token, VerificationKey,
    VerificationKeyView,
};
use crate::text::bare;
use serde_json::Value;
use vstd::prelude::*;

verus! {

/// The mathematical value of an outcome of validation.
pub open spec fn outcome_view(outcome: Result<Claims, AuthenticationError>) -> Result<
    ClaimsView,
    AuthenticationErrorView,
> {
    match outcome {
        Ok(claims) => Ok(claims@),
        Err(error) => Err(error@),
    }
}

/// The claims that a payload holds, or the decoding failure that names the
/// first of `sub`, `email` and `exp` that it lacks. A member of the wrong
/// JSON type counts as lacking.
pub open spec fn payload_claims(payload: Value) -> Result<ClaimsView, AuthenticationErrorView> {
    if !json_strings(payload).contains_key("sub"@) {
        Err(AuthenticationErrorView::Decoding("missing field `sub`"@))
    } else if !json_strings(payload).contains_key("email"@) {
        Err(AuthenticationErrorView::Decoding("missing field `email`"@))
    } else if !json_integers(payload).contains_key("exp"@) {
        Err(AuthenticationErrorView::Decoding("missing field `exp`"@))
    } else {
        Ok(
            ClaimsView {
                sub: json_strings(payload)["sub"@],
                email: json_strings(payload)["email"@],
                exp: json_integers(payload)["exp"@] as int,
            },
        )
    }
}

/// Claims are live at a moment when their expiry is strictly later.
pub open spec fn live_at(claims: ClaimsView, now: int) -> bool {
    claims.exp > now
}

/// What validation makes of the outcome of the signature check at the
/// moment `now`: a failed check is a decoding failure with the check's own
/// text, a payload without the three claims is a decoding failure, claims
/// that are not live are expired, and live claims are the result.
pub open spec fn judged(verified: Result<Value, Seq<char>>, now: int) -> Result<
    ClaimsView,
    AuthenticationErrorView,
> {
    match verified {
        Err(detail) => Err(AuthenticationErrorView::Decoding(detail)),
        Ok(payload) => match payload_claims(payload) {
            Err(error) => Err(error),
            Ok(claims) => if live_at(claims, now) {
                Ok(claims)
            } else {
                Err(AuthenticationErrorView::Expired)
            },
        },
    }
}

/// What decoding a first-party token under a secret yields at the moment
/// `now`.
pub open spec fn decode_outcome(token: Seq<char>, secret: Seq<char>, now: int) -> Result<
    ClaimsView,
    AuthenticationErrorView,
> {
    judged(verified_payload(token, VerificationKeyView::Secret(secret), hs256()), now)
}

/// Reads subject, email and expiry out of a verified payload.
pub fn claims_from_payload(payload: &Value) -> (outcome: Result<Claims, AuthenticationError>)
    ensures
        outcome_view(outcome) == payload_claims(*payload),
{
    let sub = match string_member(payload, "sub") {
        Some(sub) => sub,
        None => {
            return Err(AuthenticationError::Decoding("missing field `sub`".to_owned()));
        },
    };
    let email = match string_member(payload, "email") {
        Some(email) => email,
        None => {
            return Err(AuthenticationError::Decoding("missing field `email`".to_owned()));
        },
    };
    let exp = match integer_member(payload, "exp") {
        Some(exp) => exp,
        None => {
            return Err(AuthenticationError::Decoding("missing field `exp`".to_owned()));
        },
    };
    Ok(Claims { sub, email, exp })
}

/// Turns the outcome of the signature check into the outcome of validation
/// at the moment `now`. The signature check has been made by the time this
/// runs; expiry is judged here, separately and last.
pub fn judge(verified: Result<Value, String>, now: i64) -> (outcome: Result<
    Claims,
    AuthenticationError,
>)
    ensures
        outcome_view(outcome) == judged(
            match verified {
                Ok(payload) => Ok(payload),
                Err(detail) => Err(detail@),
            },
            now as int,
        ),
{
    match verified {
        Err(detail) => Err(AuthenticationError::Decoding(detail)),
        Ok(payload) => {
            let claims = claims_from_payload(&payload)?;
            if claims.exp > now {
                Ok(claims)
            } else {
                Err(AuthenticationError::Expired)
            }
        },
    }
}

impl Claims {
    /// Decodes a first-party token under the shared secret and validates it
    /// at the moment `now`.
    pub fn from_token_with_secret(token: &str, secret: &str, now: i64) -> (outcome: Result<
        Claims,
        AuthenticationError,
    >)
        ensures
            outcome_view(outcome) == decode_outcome(token@, secret@, now as int),
    {
        let key = VerificationKey::Secret(secret.to_owned());
        judge(verify_token(token, &key, "HS256"), now)
    }
}

/// Decodes a first-party token under the shared secret and validates it
/// against the clock. The outcome is that of
/// [`Claims::from_token_with_secret`] at the moment the clock was read, which
/// is a moment that the clock can show.
pub fn decode(token: &str, secret: &str) -> (outcome: Result<Claims, AuthenticationError>)
    ensures
        exists|now: int|
            on_the_clock(now) && outcome_view(outcome) == #[trigger] decode_outcome(
                token@,
                secret@,
                now,
            ),
{
    let now = current_timestamp();
    Claims::from_token_with_secret(token, secret, now)
}

/// What signing claims under a secret yields: the token, or the failure to
/// issue it.
pub open spec fn encode_outcome(claims: ClaimsView, secret: Seq<char>) -> Result<
    Seq<char>,
    AuthenticationErrorView,
> {
    match signed_object(
        ("sub"@, claims.sub),
        ("email"@, claims.email),
        ("exp"@, claims.exp),
        secret,
    ) {
        Ok(token) => Ok(token),
        Err(detail) => Err(AuthenticationErrorView::Issuing(detail)),
    }
}

/// The mathematical value of an outcome of issuing.
pub open spec fn issued_view(outcome: Result<String, AuthenticationError>) -> Result<
    Seq<char>,
    AuthenticationErrorView,
> {
    match outcome {
        Ok(token) => Ok(token@),
        Err(error) => Err(error@),
    }
}

/// That a token verifies under a shared secret and that its payload holds
/// the given claims as `sub`, `email` and `exp`.
pub open spec fn carries_claims(token: Seq<char>, secret: Seq<char>, claims: ClaimsView) -> bool {
    carries(token, secret, ("sub"@, claims.sub), ("email"@, claims.email), ("exp"@, claims.exp))
}

/// The names of the three claims differ from one another.
pub proof fn lemma_claim_names_differ()
    ensures
        "sub"@ != "email"@,
        "sub"@ != "exp"@,
        "email"@ != "exp"@,
{
    reveal_strlit("sub");
    reveal_strlit("email");
    reveal_strlit("exp");
    assert("sub"@.len() != "email"@.len());
    assert("exp"@.len() != "email"@.len());
    assert("sub"@[0] != "exp"@[0]);
}

/// A token that verifies under a secret and carries a subject, an email and
/// an expiry decodes under that secret to exactly those claims for as long
/// as they are live, and as expired from their expiry on. It never fails to
/// decode.
pub proof fn lemma_carried_claims_decode(
    token: Seq<char>,
    secret: Seq<char>,
    claims: ClaimsView,
    now: int,
)
    requires
        carries_claims(token, secret, claims),
    ensures
        live_at(claims, now) ==> decode_outcome(token, secret, now) == Ok::<
            ClaimsView,
            AuthenticationErrorView,
        >(claims),
        !live_at(claims, now) ==> decode_outcome(token, secret, now) == Err::<
            ClaimsView,
            AuthenticationErrorView,
        >(AuthenticationErrorView::Expired),
{
}

/// Signs claims into a first-party token. Signing is deterministic, and
/// with a shared secret it succeeds.
///
/// The token that comes out carries the claims: it decodes under the same
/// secret to the same claims for as long as they are live, and as expired
/// from their expiry on; it never fails to decode. It is bare, so that it
/// can be presented as a bearer credential as it is.
pub fn encode(claims: &Claims, secret: &str) -> (outcome: Result<String, AuthenticationError>)
    ensures
        issued_view(outcome) == encode_outcome(claims@, secret@),
        outcome is Ok,
        outcome matches Ok(token) ==> carries_claims(token@, secret@, claims@),
        outcome matches Ok(token) ==> bare(token@),
        outcome matches Ok(token) ==> forall|now: int|
            live_at(claims@, now) ==> #[trigger] decode_outcome(token@, secret@, now) == Ok::<
                ClaimsView,
                AuthenticationErrorView,
            >(claims@),
        outcome matches Ok(token) ==> forall|now: int|
            !live_at(claims@, now) ==> #[trigger] decode_outcome(token@, secret@, now) == Err::<
                ClaimsView,
                AuthenticationErrorView,
            >(AuthenticationErrorView::Expired),
{
    proof {
        lemma_claim_names_differ();
    }
    let signed = sign_object(
        ("sub", claims.sub.as_str()),
        ("email", claims.email.as_str()),
        ("exp", claims.exp),
        secret,
    );
    match signed {
        Ok(token) => Ok(token),
        Err(detail) => Err(AuthenticationError::Issuing(detail)),
    }
}

/// A token whose signature check fails under a secret never decodes under
/// it, whatever the time: the outcome is a decoding failure that carries the
/// check's own text.
pub proof fn lemma_unverified_token_is_rejected(
    token: Seq<char>,
    secret: Seq<char>,
    now: int,
)
    requires
        verified_payload(token, VerificationKeyView::Secret(secret), hs256()) is Err,
    ensures
        decode_outcome(token, secret, now) == Err::<ClaimsView, AuthenticationErrorView>(
            AuthenticationErrorView::Decoding(
                verified_payload(token, VerificationKeyView::Secret(secret), hs256())->Err_0,
            ),
        ),
{
}

/// A first-party token is valid at a moment if and only if it verifies
/// under the secret, its payload holds the three claims, and their expiry
/// is strictly later than the moment; and then it decodes to those claims.
pub proof fn lemma_valid_means_verified_and_live(token: Seq<char>, secret: Seq<char>, now: int)
    ensures
        decode_outcome(token, secret, now) is Ok <==> (verified_payload(
            token,
            VerificationKeyView::Secret(secret),
            hs256(),
        ) matches Ok(payload) && payload_claims(payload) matches Ok(claims) && live_at(
            claims,
            now,
        )),
        decode_outcome(token, secret, now) is Ok ==> payload_claims(
            verified_payload(token, VerificationKeyView::Secret(secret), hs256())->Ok_0,
        ) == decode_outcome(token, secret, now),
{
}

} // verus!
