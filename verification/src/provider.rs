//! Validation of the identity provider's assertions.
//!
//! An identity assertion is a token that the provider signs with one of the
//! keys of its published key set. It is validated by resolving the key that
//! the token's header names, checking the signature with that key, and
//! checking that the assertion was made out to this service. Its own expiry
//! is not enforced: the assertion is used once, at the moment it arrives, to
//! carry subject and email into a freshly issued first-party token.

use crate::claims::{Claims, ClaimsView};
use crate::codec::{claims_from_payload, outcome_view, payload_claims};
use crate::error::{AuthenticationError, AuthenticationErrorView};
use crate::json::{json_strings, string_member};
use crate::jwt::{
    header_key_id, parse_key_set, parsed_key_set, token_key_id, verified_payload, verify_token,
    VerificationKey, VerificationKeyView,
};
use crate::keys::{
    answers_to, found, lemma_found_none, KeyMaterial, KeyMaterialView, KeySet, ProviderKeyView,
};
use crate::text::{same_text, text_view};
use serde_json::Value;
use vstd::prelude::*;

verus! {

/// A payload is made out to an audience when its `aud` member is a string
/// and equals it.
pub open spec fn made_out_to(payload: Value, audience: Seq<char>) -> bool {
    json_strings(payload).contains_key("aud"@) && json_strings(payload)["aud"@] == audience
}

/// What validation makes of the outcome of the signature check: a failed
/// check is a decoding failure with the check's own text, a payload made out
/// to anyone else is a decoding failure, and otherwise the payload's claims
/// are read.
pub open spec fn audited(verified: Result<Value, Seq<char>>, audience: Seq<char>) -> Result<
    ClaimsView,
    AuthenticationErrorView,
> {
    match verified {
        Err(detail) => Err(AuthenticationErrorView::Decoding(detail)),
        Ok(payload) => if made_out_to(payload, audience) {
            payload_claims(payload)
        } else {
            Err(AuthenticationErrorView::Decoding("InvalidAudience"@))
        },
    }
}

/// What checking a token against one resolved key yields. A key that is not
/// an RSA key, or that does not say which algorithm it is for, is rejected
/// without a look at the token.
pub open spec fn checked_with(
    token: Seq<char>,
    audience: Seq<char>,
    key: ProviderKeyView,
) -> Result<ClaimsView, AuthenticationErrorView> {
    match key.material {
        KeyMaterialView::Rsa { modulus, exponent } => match key.algorithm {
            None => Err(AuthenticationErrorView::Decoding("InvalidAlgorithm"@)),
            Some(algorithm) => audited(
                verified_payload(token, VerificationKeyView::Rsa { modulus, exponent }, algorithm),
                audience,
            ),
        },
        _ => Err(AuthenticationErrorView::Decoding("InvalidAlgorithm"@)),
    }
}

/// What validating a provider token for an audience against a key set
/// yields.
pub open spec fn validate_outcome(
    token: Seq<char>,
    audience: Seq<char>,
    keys: Seq<ProviderKeyView>,
) -> Result<ClaimsView, AuthenticationErrorView> {
    match header_key_id(token) {
        Err(detail) => Err(AuthenticationErrorView::Decoding(detail)),
        Ok(None) => Err(AuthenticationErrorView::Decoding("MissingKeyId"@)),
        Ok(Some(key_id)) => match found(keys, key_id) {
            None => Err(AuthenticationErrorView::Decoding("JwkNotFound"@)),
            Some(key) => checked_with(token, audience, key),
        },
    }
}

/// Turns the outcome of the signature check into the outcome of validation
/// for an audience.
pub fn audit(verified: Result<Value, String>, audience: &str) -> (outcome: Result<
    Claims,
    AuthenticationError,
>)
    ensures
        outcome_view(outcome) == audited(
            match verified {
                Ok(payload) => Ok(payload),
                Err(detail) => Err(detail@),
            },
            audience@,
        ),
{
    match verified {
        Err(detail) => Err(AuthenticationError::Decoding(detail)),
        Ok(payload) => {
            let made_out = match string_member(&payload, "aud") {
                Some(named) => same_text(named.as_str(), audience),
                None => false,
            };
            if made_out {
                claims_from_payload(&payload)
            } else {
                Err(AuthenticationError::Decoding("InvalidAudience".to_owned()))
            }
        },
    }
}

impl Claims {
    /// Validates a provider token for an audience against the provider's
    /// key set.
    pub fn from_token_with_jwks(token: &str, audience: &str, jwks: &KeySet) -> (outcome: Result<
        Claims,
        AuthenticationError,
    >)
        ensures
            outcome_view(outcome) == validate_outcome(token@, audience@, jwks@),
    {
        let key_id = match token_key_id(token) {
            Err(detail) => {
                return Err(AuthenticationError::Decoding(detail));
            },
            Ok(None) => {
                return Err(AuthenticationError::Decoding("MissingKeyId".to_owned()));
            },
            Ok(Some(key_id)) => key_id,
        };
        let key = match jwks.find(key_id.as_str()) {
            None => {
                return Err(AuthenticationError::Decoding("JwkNotFound".to_owned()));
            },
            Some(key) => key,
        };
        match &key.material {
            KeyMaterial::Rsa { modulus, exponent } => match &key.algorithm {
                None => Err(AuthenticationError::Decoding("InvalidAlgorithm".to_owned())),
                Some(algorithm) => {
                    let rsa = VerificationKey::Rsa {
                        modulus: modulus.clone(),
                        exponent: exponent.clone(),
                    };
                    audit(verify_token(token, &rsa, algorithm.as_str()), audience)
                },
            },
            _ => Err(AuthenticationError::Decoding("InvalidAlgorithm".to_owned())),
        }
    }
}

/// What the identity provider's token endpoint answered, as far as this
/// crate reads it: the identity assertion, and the refresh token if the
/// provider sent one.
#[derive(Debug, Clone, PartialEq, Eq)]
pub struct ProviderResponse {
    pub id_token: Option<String>,
    pub refresh_token: Option<String>,
}

/// The mathematical value of a [`ProviderResponse`].
pub struct ProviderResponseView {
    pub id_token: Option<Seq<char>>,
    pub refresh_token: Option<Seq<char>>,
}

impl View for ProviderResponse {
    type V = ProviderResponseView;

    open spec fn view(&self) -> ProviderResponseView {
        ProviderResponseView {
            id_token: text_view(self.id_token),
            refresh_token: text_view(self.refresh_token),
        }
    }
}

/// What the provider's answer and the body of its key-set endpoint yield
/// together. An answer without an identity assertion and a body that is no
/// key set are the provider's failures, not the credential's.
pub open spec fn response_claims(
    response: ProviderResponseView,
    key_set: Seq<char>,
    audience: Seq<char>,
) -> Result<ClaimsView, AuthenticationErrorView> {
    match response.id_token {
        None => Err(AuthenticationErrorView::ProviderUnavailable("MissingIdToken"@)),
        Some(id_token) => match parsed_key_set(key_set) {
            None => Err(AuthenticationErrorView::ProviderUnavailable("InvalidKeySet"@)),
            Some(keys) => validate_outcome(id_token, audience, keys),
        },
    }
}

/// Validates the identity assertion in the provider's answer against the
/// key set that was fetched for it, given as the body of the provider's
/// key-set endpoint.
pub fn claims_from_response(
    response: &ProviderResponse,
    key_set: &str,
    audience: &str,
) -> (outcome: Result<Claims, AuthenticationError>)
    ensures
        outcome_view(outcome) == response_claims(response@, key_set@, audience@),
{
    let id_token = match &response.id_token {
        None => {
            return Err(AuthenticationError::ProviderUnavailable("MissingIdToken".to_owned()));
        },
        Some(id_token) => id_token,
    };
    match parse_key_set(key_set) {
        None => Err(AuthenticationError::ProviderUnavailable("InvalidKeySet".to_owned())),
        Some(keys) => Claims::from_token_with_jwks(id_token.as_str(), audience, &keys),
    }
}

/// A token whose header names a key identifier that no key of the set
/// answers to is rejected as a decoding failure, whatever its signature.
pub proof fn lemma_unknown_key_is_rejected(
    token: Seq<char>,
    audience: Seq<char>,
    keys: Seq<ProviderKeyView>,
    key_id: Seq<char>,
)
    requires
        header_key_id(token) == Ok::<Option<Seq<char>>, Seq<char>>(Some(key_id)),
        forall|i: int| 0 <= i < keys.len() ==> !answers_to(#[trigger] keys[i], key_id),
    ensures
        validate_outcome(token, audience, keys) == Err::<ClaimsView, AuthenticationErrorView>(
            AuthenticationErrorView::Decoding("JwkNotFound"@),
        ),
{
    lemma_found_none(keys, key_id);
}

/// A token whose signature verifies under the key that its header names,
/// but whose payload is not made out to the configured audience, is
/// rejected as a decoding failure.
pub proof fn lemma_foreign_audience_is_rejected(
    token: Seq<char>,
    audience: Seq<char>,
    keys: Seq<ProviderKeyView>,
    key_id: Seq<char>,
    payload: Value,
)
    requires
        header_key_id(token) == Ok::<Option<Seq<char>>, Seq<char>>(Some(key_id)),
        found(keys, key_id) matches Some(key) && key.material matches KeyMaterialView::Rsa {
            modulus,
            exponent,
        } && key.algorithm matches Some(algorithm) && verified_payload(
            token,
            VerificationKeyView::Rsa { modulus, exponent },
            algorithm,
        ) == Ok::<Value, Seq<char>>(payload),
        !made_out_to(payload, audience),
    ensures
        validate_outcome(token, audience, keys) == Err::<ClaimsView, AuthenticationErrorView>(
            AuthenticationErrorView::Decoding("InvalidAudience"@),
        ),
{
}

/// Validation succeeds only for a payload that is made out to the
/// configured audience and whose signature verified under a key of the set
/// that answers to the identifier in the token's header.
pub proof fn lemma_validated_means_resolved_and_made_out(
    token: Seq<char>,
    audience: Seq<char>,
    keys: Seq<ProviderKeyView>,
)
    requires
        validate_outcome(token, audience, keys) is Ok,
    ensures
        header_key_id(token) matches Ok(Some(key_id)) && found(keys, key_id) matches Some(key)
            && key.material matches KeyMaterialView::Rsa { modulus, exponent }
            && key.algorithm matches Some(algorithm) && verified_payload(
            token,
            VerificationKeyView::Rsa { modulus, exponent },
            algorithm,
        ) matches Ok(payload) && made_out_to(payload, audience) && payload_claims(payload)
            == validate_outcome(token, audience, keys),
{
}

} // verus!
