//! The provider's callback: how a session comes to be.
//!
//! When the provider calls back with its answer to the authorization code,
//! the identity assertion in the answer is validated, a first-party token
//! is minted from its claims, and a signed-in session is written to the
//! carrier. The profile for the asserted email is then looked up from the
//! user service, with the new token as the bearer credential, and cached in
//! the carrier.

use crate::bearer::{bearer, bearer_value, presented_token};
use crate::claims::ClaimsView;
use crate::codec::carries_claims;
use crate::config::{Config, ConfigView};
use crate::error::{AuthenticationError, AuthenticationErrorView};
use crate::issuer::{expiry_after, issue_at, issue_outcome};
use crate::profile::{result_of, SingleApiResponse};
use crate::provider::{
    claims_from_response, response_claims, ProviderResponse, ProviderResponseView,
};
use crate::refresh::fetch_view;
use crate::session::{
    lifecycle_tag, loaded, save, saved, Carrier, CarrierView, Lifecycle, ProviderKind,
    SessionRecord, SessionRecordView,
};
use crate::tokens::TokenPairView;
use vstd::prelude::*;

verus! {

/// The carrier as the callback first marks it: signed out, whatever else it
/// holds.
pub open spec fn marked_signed_out(carrier: CarrierView) -> CarrierView {
    CarrierView { lifecycle: Some(lifecycle_tag(Lifecycle::LoggedOut)), ..carrier }
}

/// Marks the carrier as signed out, before anything of the provider's
/// answer is trusted.
pub fn begin_login(carrier: &mut Carrier)
    ensures
        final(carrier)@ == marked_signed_out(old(carrier)@),
{
    carrier.lifecycle = Some(Lifecycle::LoggedOut.tag().to_owned());
}

/// The first-party token that a callback mints at the moment `now`, or why
/// it mints none: the key set could not be fetched, the identity assertion
/// does not validate, the provider sent no refresh token, or the token
/// could not be issued.
pub open spec fn login_token(
    response: ProviderResponseView,
    key_set: Result<Seq<char>, Seq<char>>,
    config: ConfigView,
    now: int,
) -> Result<Seq<char>, AuthenticationErrorView> {
    match key_set {
        Err(detail) => Err(AuthenticationErrorView::ProviderUnavailable(detail)),
        Ok(body) => match response_claims(response, body, config.google_oauth_audience) {
            Err(error) => Err(error),
            Ok(claims) => if response.refresh_token is None {
                Err(AuthenticationErrorView::ProviderUnavailable("MissingRefreshToken"@))
            } else {
                issue_outcome(claims.sub, claims.email, config.access_token_ttl, config.key, now)
            },
        },
    }
}

/// The session that a callback establishes around a minted token.
pub open spec fn established(
    token: Seq<char>,
    response: ProviderResponseView,
) -> SessionRecordView {
    SessionRecordView {
        auth_type: ProviderKind::Google,
        tokens: TokenPairView {
            access_token: token,
            refresh_token: response.refresh_token->Some_0,
        },
        lifecycle: Lifecycle::LoggedIn,
    }
}

/// That a callback owes a session: the key set was fetched, the identity
/// assertion validates against it, the provider sent a refresh token, and
/// the configured time to live leads to a timestamp.
pub open spec fn login_is_owed(
    response: ProviderResponseView,
    key_set: Result<Seq<char>, Seq<char>>,
    config: ConfigView,
    now: int,
) -> bool {
    &&& key_set is Ok
    &&& response_claims(response, key_set->Ok_0, config.google_oauth_audience) is Ok
    &&& response.refresh_token is Some
    &&& expiry_after(now, config.access_token_ttl) is Some
}

/// The claims of the first-party token that a callback mints at the
/// moment `now`: the subject and the email that the provider asserts, to
/// expire the configured time from `now`.
pub open spec fn login_claims(
    response: ProviderResponseView,
    key_set: Result<Seq<char>, Seq<char>>,
    config: ConfigView,
    now: int,
) -> ClaimsView {
    let asserted = response_claims(response, key_set->Ok_0, config.google_oauth_audience)->Ok_0;
    ClaimsView {
        sub: asserted.sub,
        email: asserted.email,
        exp: now + config.access_token_ttl,
    }
}

/// Completes the callback at the moment `now`, with the provider's answer
/// and what the key-set fetch came back with. It succeeds wherever a
/// session is owed.
///
/// On success a signed-in session is in the carrier, and what comes back is
/// the `Authorization` value with which the profile is to be looked up: it
/// presents the new first-party token as it is, and that token carries the
/// claims of the login. On failure the carrier is left as it was.
pub fn complete_login(
    carrier: &mut Carrier,
    response: &ProviderResponse,
    key_set: Result<String, String>,
    config: &Config,
    now: i64,
) -> (outcome: Result<String, AuthenticationError>)
    ensures
        match outcome {
            Ok(value) => login_token(response@, fetch_view(key_set), config@, now as int)
                matches Ok(token) && value@ == bearer() + token && presented_token(value@) == Some(
                token,
            ) && final(carrier)@ == saved(old(carrier)@, established(token, response@)) && loaded(
                final(carrier)@,
            ) == Some(established(token, response@)),
            Err(error) => login_token(response@, fetch_view(key_set), config@, now as int) == Err::<
                Seq<char>,
                AuthenticationErrorView,
            >(error@) && final(carrier)@ == old(carrier)@,
        },
        login_is_owed(response@, fetch_view(key_set), config@, now as int) ==> outcome is Ok,
        outcome is Ok ==> carries_claims(
            login_token(response@, fetch_view(key_set), config@, now as int)->Ok_0,
            config@.key,
            login_claims(response@, fetch_view(key_set), config@, now as int),
        ),
{
    let body = match key_set {
        Err(detail) => {
            return Err(AuthenticationError::ProviderUnavailable(detail));
        },
        Ok(body) => body,
    };
    let claims = claims_from_response(
        response,
        body.as_str(),
        config.google_oauth_audience.as_str(),
    )?;
    let refresh_token = match &response.refresh_token {
        None => {
            return Err(
                AuthenticationError::ProviderUnavailable("MissingRefreshToken".to_owned()),
            );
        },
        Some(refresh_token) => refresh_token.clone(),
    };
    let token = issue_at(
        claims.sub,
        claims.email,
        config.access_token_ttl,
        config.key.as_str(),
        now,
    )?;
    let value = bearer_value(token.as_str());
    let record = SessionRecord::new(
        ProviderKind::Google,
        token,
        refresh_token,
        Lifecycle::LoggedIn,
    );
    save(carrier, &record);
    Ok(value)
}

/// What became of a profile lookup that the user service answered as
/// expected.
#[derive(Debug, Clone, Copy, PartialEq, Eq)]
pub enum ProfileOutcome {
    /// The profile was found and is cached in the carrier.
    Stored,
    /// The service answered with success, but not with a record.
    Unreadable,
    /// The service did not accept the token.
    Unauthorized,
}

/// The HTTP status of success.
pub const STATUS_OK: u16 = 200;

/// The HTTP status of a credential that was not accepted.
pub const STATUS_UNAUTHORIZED: u16 = 401;

/// What a profile lookup comes to, by the status and the body of the
/// service's answer. Any status but success and refusal is the service's
/// failure.
pub open spec fn profile_outcome(status: u16, body: Seq<char>) -> Result<
    ProfileOutcome,
    AuthenticationErrorView,
> {
    if status == STATUS_OK {
        if result_of(body) is Some {
            Ok(ProfileOutcome::Stored)
        } else {
            Ok(ProfileOutcome::Unreadable)
        }
    } else if status == STATUS_UNAUTHORIZED {
        Ok(ProfileOutcome::Unauthorized)
    } else {
        Err(AuthenticationErrorView::ProviderUnavailable("UnexpectedStatus"@))
    }
}

/// Takes the user service's answer to the profile lookup. A record that
/// was found replaces the cached profile; in every other case the carrier
/// is left as it was.
pub fn record_profile(carrier: &mut Carrier, status: u16, body: &str) -> (outcome: Result<
    ProfileOutcome,
    AuthenticationError,
>)
    ensures
        match outcome {
            Ok(outcome) => profile_outcome(status, body@) == Ok::<
                ProfileOutcome,
                AuthenticationErrorView,
            >(outcome),
            Err(error) => profile_outcome(status, body@) == Err::<
                ProfileOutcome,
                AuthenticationErrorView,
            >(error@),
        },
        final(carrier)@ == if outcome == Ok::<ProfileOutcome, AuthenticationError>(
            ProfileOutcome::Stored,
        ) {
            CarrierView { profile: result_of(body@), ..old(carrier)@ }
        } else {
            old(carrier)@
        },
{
    if status == STATUS_OK {
        match SingleApiResponse::parse(body) {
            Some(response) => {
                carrier.profile = Some(response.result);
                Ok(ProfileOutcome::Stored)
            },
            None => Ok(ProfileOutcome::Unreadable),
        }
    } else if status == STATUS_UNAUTHORIZED {
        Ok(ProfileOutcome::Unauthorized)
    } else {
        Err(AuthenticationError::ProviderUnavailable("UnexpectedStatus".to_owned()))
    }
}

} // verus!
