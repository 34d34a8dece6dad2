//! The credential pair that a session carries.
//!
//! The access token is the first-party token that this system minted; the
//! refresh token is the provider's, and is the only capability with which a
//! fresh identity assertion can be obtained.

use crate::claims::Claims;
use crate::codec::{decode_outcome, outcome_view};
use crate::error::AuthenticationError;
use vstd::prelude::*;

verus! {

/// Marks the shape of the provider's token response. It carries nothing.
#[derive(Debug, Clone, Copy, PartialEq, Eq)]
pub struct Token {}

/// The mathematical value of a credential pair.
pub struct TokenPairView {
    pub access_token: Seq<char>,
    pub refresh_token: Seq<char>,
}

/// What every credential pair offers, whichever provider it belongs to.
pub trait OAuth2Token {
    /// The pair as a mathematical value.
    spec fn pair(&self) -> TokenPairView;

    /// The first-party access token.
    fn access_token(&self) -> (token: &str)
        ensures
            token@ == self.pair().access_token,
    ;

    /// The provider's refresh token.
    fn refresh_token(&self) -> (token: &str)
        ensures
            token@ == self.pair().refresh_token,
    ;

    /// Whether the access token is valid under the secret at the moment
    /// `now`.
    fn access_token_valid(&self, secret: &str, now: i64) -> (valid: bool)
        ensures
            valid == decode_outcome(self.pair().access_token, secret@, now as int) is Ok,
    {
        match Claims::from_token_with_secret(self.access_token(), secret, now) {
            Ok(_) => true,
            Err(_) => false,
        }
    }

    /// The claims of the access token, validated under the secret at the
    /// moment `now`.
    fn claims(&self, secret: &str, now: i64) -> (outcome: Result<Claims, AuthenticationError>)
        ensures
            outcome_view(outcome) == decode_outcome(
                self.pair().access_token,
                secret@,
                now as int,
            ),
    {
        Claims::from_token_with_secret(self.access_token(), secret, now)
    }
}

/// A pair whose access token can be replaced after a refresh.
pub trait Refreshable: OAuth2Token {
    /// Takes the re-minted access token. The provider may have rotated the
    /// refresh token; if it has not, the one held is kept.
    fn refresh_access_token(&mut self, access_token: String, rotated: Option<String>)
        ensures
            final(self).pair() == (TokenPairView {
                access_token: access_token@,
                refresh_token: match rotated {
                    Some(rotated) => rotated@,
                    None => old(self).pair().refresh_token,
                },
            }),
    ;
}

/// A credential pair of no particular provider, as it is first put
/// together when the provider calls back.
#[derive(Debug, Clone, PartialEq, Eq)]
pub struct Tokens {
    pub access_token: String,
    pub refresh_token: String,
}

impl View for Tokens {
    type V = TokenPairView;

    open spec fn view(&self) -> TokenPairView {
        TokenPairView { access_token: self.access_token@, refresh_token: self.refresh_token@ }
    }
}

impl OAuth2Token for Tokens {
    open spec fn pair(&self) -> TokenPairView {
        self@
    }

    fn access_token(&self) -> (token: &str) {
        self.access_token.as_str()
    }

    fn refresh_token(&self) -> (token: &str) {
        self.refresh_token.as_str()
    }
}

/// The credential pair of a session that was signed in through Google.
#[derive(Debug, Clone, PartialEq, Eq)]
pub struct GoogleTokens {
    pub access_token: String,
    pub refresh_token: String,
}

impl View for GoogleTokens {
    type V = TokenPairView;

    open spec fn view(&self) -> TokenPairView {
        TokenPairView { access_token: self.access_token@, refresh_token: self.refresh_token@ }
    }
}

impl OAuth2Token for GoogleTokens {
    open spec fn pair(&self) -> TokenPairView {
        self@
    }

    fn access_token(&self) -> (token: &str) {
        self.access_token.as_str()
    }

    fn refresh_token(&self) -> (token: &str) {
        self.refresh_token.as_str()
    }
}

impl Refreshable for GoogleTokens {
    fn refresh_access_token(&mut self, access_token: String, rotated: Option<String>) {
        self.access_token = access_token;
        match rotated {
            Some(rotated) => {
                self.refresh_token = rotated;
            },
            None => {},
        }
    }
}

impl GoogleTokens {
    /// A copy of this pair.
    pub fn duplicate(&self) -> (copy: GoogleTokens)
        ensures
            copy@ == self@,
    {
        GoogleTokens {
            access_token: self.access_token.clone(),
            refresh_token: self.refresh_token.clone(),
        }
    }
}

} // verus!
