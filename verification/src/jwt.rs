//! Signing and checking JSON Web Tokens, and reading key sets, through
//! `jsonwebtoken`.
//!
//! The cryptography, the base64 and the JSON framing of a token are the
//! outside crate's. This module gives each call a name for what it returns
//! and states, without proof, the little that the rest of the crate relies
//! on. Every check on the claims themselves (expiry, audience, required
//! members) is made by verified code elsewhere, on the payload that comes
//! back from here: the calls below ask `jsonwebtoken` for the signature
//! check and the decoding only.

use crate::json::{json_integers, json_strings};
use crate::keys::{KeyMaterial, KeySet, ProviderKey, ProviderKeyView};
use crate::text::bare;
use jsonwebtoken::jwk::{AlgorithmParameters, JwkSet};
use jsonwebtoken::{
    decode, decode_header, encode, Algorithm, DecodingKey, EncodingKey, Header, Validation,
};
use serde_json::Value;
use std::str::FromStr;
use vstd::prelude::*;

verus! {

/// The key a token's signature is checked with.
#[derive(Debug, Clone, PartialEq, Eq)]
pub enum VerificationKey {
    /// A shared secret, for the HMAC family.
    Secret(String),
    /// An RSA public key by its components, each base64url-encoded as in a
    /// JSON Web Key.
    Rsa { modulus: String, exponent: String },
}

/// The mathematical value of a [`VerificationKey`].
pub enum VerificationKeyView {
    Secret(Seq<char>),
    Rsa { modulus: Seq<char>, exponent: Seq<char> },
}

impl View for VerificationKey {
    type V = VerificationKeyView;

    open spec fn view(&self) -> VerificationKeyView {
        match self {
            VerificationKey::Secret(secret) => VerificationKeyView::Secret(secret@),
            VerificationKey::Rsa { modulus, exponent } => VerificationKeyView::Rsa {
                modulus: modulus@,
                exponent: exponent@,
            },
        }
    }
}

/// What `jsonwebtoken::decode` makes of a token under a key and the one
/// algorithm it is told to accept, with all of its claim checks switched
/// off: the payload as a JSON document when the token is well formed and its
/// signature verifies, and otherwise the text of the crate's error.
pub uninterp spec fn verified_payload(
    token: Seq<char>,
    key: VerificationKeyView,
    algorithm: Seq<char>,
) -> Result<Value, Seq<char>>;

/// What `jsonwebtoken::encode` returns for a payload of three members, two
/// texts and a number, each under its name, with a default header and a
/// shared secret: the token, or the text of the crate's error.
pub uninterp spec fn signed_object(
    first: (Seq<char>, Seq<char>),
    second: (Seq<char>, Seq<char>),
    third: (Seq<char>, int),
    secret: Seq<char>,
) -> Result<Seq<char>, Seq<char>>;

/// What `jsonwebtoken::decode_header` finds as the key identifier in a
/// token's header, read without any check of the signature: the identifier
/// if the header has one, or the text of the crate's error when the token
/// does not have the shape of a JWT.
pub uninterp spec fn header_key_id(token: Seq<char>) -> Result<Option<Seq<char>>, Seq<char>>;

/// The name of the algorithm that first-party tokens are signed with.
pub open spec fn hs256() -> Seq<char> {
    "HS256"@
}

/// That a token verifies under a shared secret with HS256 and that its
/// payload holds two texts and a number under the given names.
pub open spec fn carries(
    token: Seq<char>,
    secret: Seq<char>,
    first: (Seq<char>, Seq<char>),
    second: (Seq<char>, Seq<char>),
    third: (Seq<char>, int),
) -> bool {
    &&& verified_payload(token, VerificationKeyView::Secret(secret), hs256()) is Ok
    &&& {
        let payload = verified_payload(token, VerificationKeyView::Secret(secret), hs256())->Ok_0;
        &&& json_strings(payload).contains_key(first.0)
        &&& json_strings(payload)[first.0] == first.1
        &&& json_strings(payload).contains_key(second.0)
        &&& json_strings(payload)[second.0] == second.1
        &&& json_integers(payload).contains_key(third.0)
        &&& json_integers(payload)[third.0] as int == third.1
    }
}

/// `jsonwebtoken::decode` into a `serde_json::Value`, with a key made by
/// `DecodingKey::from_secret` or `DecodingKey::from_rsa_components` and a
/// `Validation` for the algorithm that `Algorithm::from_str` gives for the
/// name. The validation requires no claim and checks neither expiry nor
/// audience, so the outcome depends on the three arguments alone and never
/// on the clock. An unknown algorithm name, key components that are not
/// base64url, a malformed token, an algorithm in the header other than the
/// one named, and a signature that does not verify all come back as the
/// error's text.
#[verifier::external_body]
pub(crate) fn verify_token(token: &str, key: &VerificationKey, algorithm: &str) -> (outcome: Result<
    Value,
    String,
>)
    ensures
        match outcome {
            Ok(payload) => verified_payload(token@, key@, algorithm@) == Ok::<Value, Seq<char>>(
                payload,
            ),
            Err(detail) => verified_payload(token@, key@, algorithm@) == Err::<Value, Seq<char>>(
                detail@,
            ),
        },
{
    let decoding_key = match key {
        VerificationKey::Secret(secret) => DecodingKey::from_secret(secret.as_bytes()),
        VerificationKey::Rsa { modulus, exponent } => {
            DecodingKey::from_rsa_components(modulus, exponent).map_err(|e| e.to_string())?
        },
    };
    let mut checks = Validation::new(Algorithm::from_str(algorithm).map_err(|e| e.to_string())?);
    checks.required_spec_claims.clear();
    checks.validate_exp = false;
    checks.validate_aud = false;
    match decode::<Value>(token, &decoding_key, &checks) {
        Ok(data) => Ok(data.claims),
        Err(e) => Err(e.to_string()),
    }
}

/// `jsonwebtoken::encode` with `Header::default()` (HS256), a key made by
/// `EncodingKey::from_secret`, and a JSON object of three members: two texts
/// and a number, each under the name that comes with it. Signing is
/// deterministic, so the outcome depends on the arguments alone.
///
/// Three more things are said. Signing succeeds: with a shared secret and
/// the default header, `encode` has nothing left that can fail, whatever the
/// secret and the members. A token that `encode` hands out verifies under
/// the same secret, and where the three names differ, its payload reads
/// back as the members that went in: this is the one fact about the pair of
/// `encode` and `decode` that this crate relies on. And the token is made of
/// base64url text and dots, so it neither begins nor ends with white space.
#[verifier::external_body]
pub(crate) fn sign_object(
    first: (&str, &str),
    second: (&str, &str),
    third: (&str, i64),
    secret: &str,
) -> (outcome: Result<String, String>)
    ensures
        match outcome {
            Ok(token) => signed_object(
                (first.0@, first.1@),
                (second.0@, second.1@),
                (third.0@, third.1 as int),
                secret@,
            ) == Ok::<Seq<char>, Seq<char>>(token@),
            Err(detail) => signed_object(
                (first.0@, first.1@),
                (second.0@, second.1@),
                (third.0@, third.1 as int),
                secret@,
            ) == Err::<Seq<char>, Seq<char>>(detail@),
        },
        outcome is Ok,
        outcome matches Ok(token) ==> bare(token@),
        outcome matches Ok(token) ==> (first.0@ != second.0@ && first.0@ != third.0@ && second.0@
            != third.0@ ==> carries(
            token@,
            secret@,
            (first.0@, first.1@),
            (second.0@, second.1@),
            (third.0@, third.1 as int),
        )),
{
    let mut payload = serde_json::Map::new();
    payload.insert(first.0.to_owned(), Value::from(first.1));
    payload.insert(second.0.to_owned(), Value::from(second.1));
    payload.insert(third.0.to_owned(), Value::from(third.1));
    encode(&Header::default(), &payload, &EncodingKey::from_secret(secret.as_bytes()))
        .map_err(|e| e.to_string())
}

/// `jsonwebtoken::decode_header`, keeping the header's `kid` only. Nothing
/// is verified; the outcome depends on the token alone.
#[verifier::external_body]
pub(crate) fn token_key_id(token: &str) -> (outcome: Result<Option<String>, String>)
    ensures
        match outcome {
            Ok(Some(key_id)) => header_key_id(token@) == Ok::<Option<Seq<char>>, Seq<char>>(
                Some(key_id@),
            ),
            Ok(None) => header_key_id(token@) == Ok::<Option<Seq<char>>, Seq<char>>(None),
            Err(detail) => header_key_id(token@) == Err::<Option<Seq<char>>, Seq<char>>(detail@),
        },
{
    match decode_header(token) {
        Ok(header) => Ok(header.kid),
        Err(e) => Err(e.to_string()),
    }
}

/// What `serde_json` makes of a text read as a JSON Web Key Set, key by
/// key: nothing when the text is not a key set.
pub uninterp spec fn parsed_key_set(text: Seq<char>) -> Option<Seq<ProviderKeyView>>;

/// `serde_json::from_str::<jsonwebtoken::jwk::JwkSet>`, with each key handed
/// out as a [`ProviderKey`]: `kid` as the identifier, the name of `alg` as
/// the algorithm, and the type of the key as the material, with `n` and `e`
/// for an RSA key. The result depends on the text alone.
#[verifier::external_body]
pub(crate) fn parse_key_set(text: &str) -> (set: Option<KeySet>)
    ensures
        match set {
            Some(set) => parsed_key_set(text@) == Some(set@),
            None => parsed_key_set(text@) is None,
        },
{
    let set = serde_json::from_str::<JwkSet>(text).ok()?;
    let keys = set.keys.into_iter().map(|jwk| ProviderKey {
        key_id: jwk.common.key_id,
        algorithm: jwk.common.key_algorithm.map(|name| name.to_string()),
        material: match jwk.algorithm {
            AlgorithmParameters::RSA(rsa) => KeyMaterial::Rsa { modulus: rsa.n, exponent: rsa.e },
            AlgorithmParameters::EllipticCurve(_) => KeyMaterial::EllipticCurve,
            AlgorithmParameters::OctetKey(_) => KeyMaterial::OctetKey,
            AlgorithmParameters::OctetKeyPair(_) => KeyMaterial::OctetKeyPair,
        },
    });
    Some(KeySet { keys: keys.collect() })
}

} // verus!
