//! The refresh coordinator.
//!
//! A session whose first-party token has expired is refreshed by exchanging
//! the retained refresh token with the identity provider for a new identity
//! assertion, validating that assertion, and minting a new first-party
//! token from it. A token that does not decode is never refreshed.
//!
//! The exchange and the key-set fetch are network calls, which the
//! coordinator does not make. It decides: each of its steps takes what has
//! just happened and says what is to be done next. The caller makes the
//! call and comes back with the answer.
//!
//! All of this happens in a [`RequestContext`], one per inbound request. The
//! context remembers the outcome once it is settled, success or failure,
//! and hands the same outcome to whoever asks afterwards, so that one
//! request makes at most one exchange with the provider.

use crate::claims::{Claims, ClaimsView};
use crate::codec::{carries_claims, decode_outcome};
use crate::config::{Config, ConfigView};
use crate::error::{AuthenticationError, AuthenticationErrorView};
use crate::issuer::{expiry_after, issue_at, issue_outcome};
use crate::provider::{
    claims_from_response, response_claims, ProviderResponse, ProviderResponseView,
};
use crate::session::{ProviderTokens, SessionRecord, SessionRecordView};
use crate::text::text_view;
use crate::tokens::{Refreshable, TokenPairView};
use vstd::prelude::*;

verus! {

/// A session that was found valid: the record, and the claims that its
/// first-party token decoded to. Only the coordinator makes one, so whoever
/// holds one holds the outcome of a validation.
#[derive(Debug, Clone, PartialEq, Eq)]
pub struct Fresh {
    record: SessionRecord,
    claims: Claims,
}

/// The mathematical value of a [`Fresh`].
pub struct FreshView {
    pub record: SessionRecordView,
    pub claims: ClaimsView,
}

impl View for Fresh {
    type V = FreshView;

    closed spec fn view(&self) -> FreshView {
        FreshView { record: self.record@, claims: self.claims@ }
    }
}

impl Fresh {
    /// The session record.
    pub fn record(&self) -> (record: &SessionRecord)
        ensures
            record@ == self@.record,
    {
        &self.record
    }

    /// The claims that the record's first-party token decoded to.
    pub fn claims(&self) -> (claims: &Claims)
        ensures
            claims@ == self@.claims,
    {
        &self.claims
    }

    /// The session record and the claims, each for itself.
    pub fn into_parts(self) -> (parts: (SessionRecord, Claims))
        ensures
            parts.0@ == self@.record,
            parts.1@ == self@.claims,
    {
        (self.record, self.claims)
    }
}

/// The mathematical value of a settled outcome.
pub open spec fn settled_view(outcome: Result<Fresh, AuthenticationError>) -> Result<
    FreshView,
    AuthenticationErrorView,
> {
    match outcome {
        Ok(fresh) => Ok(fresh@),
        Err(error) => Err(error@),
    }
}

/// A copy of a settled outcome.
pub fn copy_outcome(outcome: &Result<Fresh, AuthenticationError>) -> (copy: Result<
    Fresh,
    AuthenticationError,
>)
    ensures
        settled_view(copy) == settled_view(*outcome),
{
    match outcome {
        Ok(fresh) => Ok(
            Fresh { record: fresh.record.duplicate(), claims: fresh.claims.duplicate() },
        ),
        Err(error) => Err(error.duplicate()),
    }
}

/// Where a request's refresh stands.
#[derive(Debug, PartialEq, Eq)]
pub enum RefreshState {
    /// Nobody has asked yet.
    Idle,
    /// The refresh token is with the provider; its answer is awaited.
    AwaitingProvider { record: SessionRecord },
    /// The provider has answered; its key set is awaited.
    AwaitingKeySet { record: SessionRecord, response: ProviderResponse },
    /// The outcome is known, and stays.
    Settled(Result<Fresh, AuthenticationError>),
}

/// The mathematical value of a [`RefreshState`].
pub enum RefreshStateView {
    Idle,
    AwaitingProvider { record: SessionRecordView },
    AwaitingKeySet { record: SessionRecordView, response: ProviderResponseView },
    Settled(Result<FreshView, AuthenticationErrorView>),
}

impl View for RefreshState {
    type V = RefreshStateView;

    open spec fn view(&self) -> RefreshStateView {
        match self {
            RefreshState::Idle => RefreshStateView::Idle,
            RefreshState::AwaitingProvider { record } => RefreshStateView::AwaitingProvider {
                record: record@,
            },
            RefreshState::AwaitingKeySet { record, response } => RefreshStateView::AwaitingKeySet {
                record: record@,
                response: response@,
            },
            RefreshState::Settled(outcome) => RefreshStateView::Settled(settled_view(*outcome)),
        }
    }
}

/// What the coordinator asks of its caller.
#[derive(Debug, PartialEq, Eq)]
pub enum RefreshAction {
    /// Exchange this refresh token with the provider, and come back with
    /// its answer.
    Exchange { refresh_token: String },
    /// Fetch the provider's key set from this endpoint, and come back with
    /// the body.
    FetchKeySet { endpoint: String },
    /// Nothing more: this is the outcome.
    Done(Result<Fresh, AuthenticationError>),
    /// Nothing: the step does not belong to where the refresh stands, and
    /// changes nothing. A refresh that is under way settles through its own
    /// steps, and its outcome is there for whoever asks after that.
    Pending,
}

/// The mathematical value of a [`RefreshAction`].
pub enum RefreshActionView {
    Exchange { refresh_token: Seq<char> },
    FetchKeySet { endpoint: Seq<char> },
    Done(Result<FreshView, AuthenticationErrorView>),
    Pending,
}

impl View for RefreshAction {
    type V = RefreshActionView;

    open spec fn view(&self) -> RefreshActionView {
        match self {
            RefreshAction::Exchange { refresh_token } => RefreshActionView::Exchange {
                refresh_token: refresh_token@,
            },
            RefreshAction::FetchKeySet { endpoint } => RefreshActionView::FetchKeySet {
                endpoint: endpoint@,
            },
            RefreshAction::Done(outcome) => RefreshActionView::Done(settled_view(*outcome)),
            RefreshAction::Pending => RefreshActionView::Pending,
        }
    }
}

/// The mathematical value of what a network call came back with: the text
/// it fetched, or the text of its failure.
pub open spec fn fetch_view(fetched: Result<String, String>) -> Result<Seq<char>, Seq<char>> {
    match fetched {
        Ok(body) => Ok(body@),
        Err(detail) => Err(detail@),
    }
}

/// The mathematical value of what the exchange came back with: the
/// provider's answer, or the text of the failure to get one.
pub open spec fn reply_view(reply: Result<ProviderResponse, String>) -> Result<
    ProviderResponseView,
    Seq<char>,
> {
    match reply {
        Ok(response) => Ok(response@),
        Err(detail) => Err(detail@),
    }
}

/// Settling on an outcome: it becomes the state, and it is what is handed
/// out.
pub open spec fn settle(outcome: Result<FreshView, AuthenticationErrorView>) -> (
    RefreshStateView,
    RefreshActionView,
) {
    (RefreshStateView::Settled(outcome), RefreshActionView::Done(outcome))
}

/// What a state that a step does not belong to answers: a settled state
/// hands out its outcome again, any other state asks for nothing, and
/// neither changes.
pub open spec fn stay(state: RefreshStateView) -> (RefreshStateView, RefreshActionView) {
    match state {
        RefreshStateView::Settled(outcome) => (state, RefreshActionView::Done(outcome)),
        _ => (state, RefreshActionView::Pending),
    }
}

/// The record after a refresh: the access token is the new one, the refresh
/// token is the rotated one if the provider sent one and the old one
/// otherwise, and provider and lifecycle are as they were.
pub open spec fn refreshed(
    record: SessionRecordView,
    access_token: Seq<char>,
    rotated: Option<Seq<char>>,
) -> SessionRecordView {
    SessionRecordView {
        auth_type: record.auth_type,
        tokens: TokenPairView {
            access_token,
            refresh_token: match rotated {
                Some(rotated) => rotated,
                None => record.tokens.refresh_token,
            },
        },
        lifecycle: record.lifecycle,
    }
}

/// The step of asking for a fresh session. In an idle context the record's
/// token is decoded: a valid one settles the matter with the record as it
/// is, an expired one sends the refresh token to the provider, and any
/// other failure settles the matter as that failure.
pub open spec fn requested(
    state: RefreshStateView,
    record: SessionRecordView,
    secret: Seq<char>,
    now: int,
) -> (RefreshStateView, RefreshActionView) {
    match state {
        RefreshStateView::Idle => match decode_outcome(record.tokens.access_token, secret, now) {
            Ok(claims) => settle(Ok(FreshView { record, claims })),
            Err(AuthenticationErrorView::Expired) => (
                RefreshStateView::AwaitingProvider { record },
                RefreshActionView::Exchange { refresh_token: record.tokens.refresh_token },
            ),
            Err(error) => settle(Err(error)),
        },
        _ => stay(state),
    }
}

/// The step of taking the provider's answer to the exchange. A failed
/// exchange and an answer without an identity assertion settle the matter
/// as the provider's failure; otherwise the key set is asked for.
pub open spec fn replied(
    state: RefreshStateView,
    reply: Result<ProviderResponseView, Seq<char>>,
    endpoint: Seq<char>,
) -> (RefreshStateView, RefreshActionView) {
    match state {
        RefreshStateView::AwaitingProvider { record } => match reply {
            Err(detail) => settle(Err(AuthenticationErrorView::ProviderUnavailable(detail))),
            Ok(response) => if response.id_token is None {
                settle(Err(AuthenticationErrorView::ProviderUnavailable("MissingIdToken"@)))
            } else {
                (
                    RefreshStateView::AwaitingKeySet { record, response },
                    RefreshActionView::FetchKeySet { endpoint },
                )
            },
        },
        _ => stay(state),
    }
}

/// The session that is minted from validated provider claims at the moment
/// `now`: a first-party token is issued for the claims' subject and email
/// with the configured time to live, not the provider's, and must itself
/// decode at that moment.
pub open spec fn minted(
    record: SessionRecordView,
    claims: ClaimsView,
    rotated: Option<Seq<char>>,
    config: ConfigView,
    now: int,
) -> Result<FreshView, AuthenticationErrorView> {
    match issue_outcome(claims.sub, claims.email, config.access_token_ttl, config.key, now) {
        Err(error) => Err(error),
        Ok(token) => match decode_outcome(token, config.key, now) {
            Err(error) => Err(error),
            Ok(claims) => Ok(FreshView { record: refreshed(record, token, rotated), claims }),
        },
    }
}

/// What a refresh comes to once the key-set fetch has come back: a failed
/// fetch is the provider's failure, a failed validation of the identity
/// assertion is that failure, and otherwise the session is minted.
pub open spec fn reissued(
    record: SessionRecordView,
    response: ProviderResponseView,
    key_set: Result<Seq<char>, Seq<char>>,
    config: ConfigView,
    now: int,
) -> Result<FreshView, AuthenticationErrorView> {
    match key_set {
        Err(detail) => Err(AuthenticationErrorView::ProviderUnavailable(detail)),
        Ok(body) => match response_claims(response, body, config.google_oauth_audience) {
            Err(error) => Err(error),
            Ok(claims) => minted(record, claims, response.refresh_token, config, now),
        },
    }
}

/// The step of taking the key set. It always settles the matter.
pub open spec fn fetched(
    state: RefreshStateView,
    key_set: Result<Seq<char>, Seq<char>>,
    config: ConfigView,
    now: int,
) -> (RefreshStateView, RefreshActionView) {
    match state {
        RefreshStateView::AwaitingKeySet { record, response } => settle(
            reissued(record, response, key_set, config, now),
        ),
        _ => stay(state),
    }
}

/// The claims that a refresh owes once the key set is in: where the
/// identity assertion validates, and the configured time to live is
/// positive and leads to a timestamp, they are the provider's subject and
/// email, to expire the configured time from `now`.
pub open spec fn owed(
    state: RefreshStateView,
    key_set: Result<Seq<char>, Seq<char>>,
    config: ConfigView,
    now: int,
) -> Option<ClaimsView> {
    match state {
        RefreshStateView::AwaitingKeySet { record, response } => match key_set {
            Ok(body) => match response_claims(response, body, config.google_oauth_audience) {
                Ok(claims) => if config.access_token_ttl > 0 && expiry_after(
                    now,
                    config.access_token_ttl,
                ) is Some {
                    Some(
                        ClaimsView {
                            sub: claims.sub,
                            email: claims.email,
                            exp: now + config.access_token_ttl,
                        },
                    )
                } else {
                    None
                },
                Err(_) => None,
            },
            Err(_) => None,
        },
        _ => None,
    }
}

/// Mints the refreshed session from validated provider claims.
///
/// With a positive time to live whose expiry is a timestamp, minting
/// succeeds; the claims of the new session are then the provider's subject
/// and email with the new expiry, and its token carries them.
fn mint(
    record: SessionRecord,
    claims: Claims,
    rotated: Option<String>,
    config: &Config,
    now: i64,
) -> (outcome: Result<Fresh, AuthenticationError>)
    ensures
        settled_view(outcome) == minted(
            record@,
            claims@,
            text_view(rotated),
            config@,
            now as int,
        ),
        config.access_token_ttl > 0 && expiry_after(
            now as int,
            config@.access_token_ttl,
        ) is Some ==> outcome is Ok && outcome->Ok_0@.claims == (ClaimsView {
            sub: claims@.sub,
            email: claims@.email,
            exp: now + config.access_token_ttl,
        }) && carries_claims(
            outcome->Ok_0@.record.tokens.access_token,
            config@.key,
            outcome->Ok_0@.claims,
        ),
{
    let Claims { sub, email, exp: _ } = claims;
    let token = issue_at(sub, email, config.access_token_ttl, config.key.as_str(), now)?;
    let minted = Claims::from_token_with_secret(token.as_str(), config.key.as_str(), now)?;
    let SessionRecord { tokens, lifecycle } = record;
    match tokens {
        ProviderTokens::Google(mut pair) => {
            pair.refresh_access_token(token, rotated);
            let record = SessionRecord { tokens: ProviderTokens::Google(pair), lifecycle };
            Ok(Fresh { record, claims: minted })
        },
    }
}

/// The per-request context of the refresh coordinator. It lives for one
/// inbound request and is shared with no other.
#[derive(Debug, PartialEq, Eq)]
pub struct RequestContext {
    pub refresh: RefreshState,
}

impl View for RequestContext {
    type V = RefreshStateView;

    open spec fn view(&self) -> RefreshStateView {
        self.refresh@
    }
}

impl RequestContext {
    /// The context of a request that has just come in.
    pub fn new() -> (context: RequestContext)
        ensures
            context@ is Idle,
    {
        RequestContext { refresh: RefreshState::Idle }
    }

    /// Hands out the outcome of a settled context again, or asks for
    /// nothing; the context does not change.
    fn stay(self) -> (next: (RequestContext, RefreshAction))
        ensures
            (next.0@, next.1@) == stay(self@),
    {
        let action = match &self.refresh {
            RefreshState::Settled(outcome) => RefreshAction::Done(copy_outcome(outcome)),
            _ => RefreshAction::Pending,
        };
        (self, action)
    }

    /// Settles the context on an outcome.
    fn settle(outcome: Result<Fresh, AuthenticationError>) -> (next: (
        RequestContext,
        RefreshAction,
    ))
        ensures
            (next.0@, next.1@) == settle(settled_view(outcome)),
    {
        let copy = copy_outcome(&outcome);
        (RequestContext { refresh: RefreshState::Settled(outcome) }, RefreshAction::Done(copy))
    }

    /// Asks for a fresh session at the moment `now`.
    ///
    /// Only the first call in a context looks at the record. A valid token
    /// settles the matter at once, with the record unchanged and without
    /// any work for the caller.
    pub fn ensure_fresh(self, record: SessionRecord, secret: &str, now: i64) -> (next: (
        RequestContext,
        RefreshAction,
    ))
        ensures
            (next.0@, next.1@) == requested(self@, record@, secret@, now as int),
    {
        match self.refresh {
            RefreshState::Idle => match Claims::from_token_with_secret(
                record.access_token(),
                secret,
                now,
            ) {
                Ok(claims) => RequestContext::settle(Ok(Fresh { record, claims })),
                Err(AuthenticationError::Expired) => {
                    let refresh_token = record.refresh_token().to_owned();
                    (
                        RequestContext { refresh: RefreshState::AwaitingProvider { record } },
                        RefreshAction::Exchange { refresh_token },
                    )
                },
                Err(error) => RequestContext::settle(Err(error)),
            },
            _ => self.stay(),
        }
    }

    /// Takes what the exchange with the provider came back with.
    pub fn provider_replied(
        self,
        reply: Result<ProviderResponse, String>,
        config: &Config,
    ) -> (next: (RequestContext, RefreshAction))
        ensures
            (next.0@, next.1@) == replied(
                self@,
                reply_view(reply),
                config@.google_oauth_jwks_endpoint,
            ),
    {
        match self.refresh {
            RefreshState::AwaitingProvider { record } => match reply {
                Err(detail) => RequestContext::settle(
                    Err(AuthenticationError::ProviderUnavailable(detail)),
                ),
                Ok(response) => if response.id_token.is_none() {
                    RequestContext::settle(
                        Err(AuthenticationError::ProviderUnavailable("MissingIdToken".to_owned())),
                    )
                } else {
                    let refresh = RefreshState::AwaitingKeySet { record, response };
                    (
                        RequestContext { refresh },
                        RefreshAction::FetchKeySet {
                            endpoint: config.google_oauth_jwks_endpoint.clone(),
                        },
                    )
                },
            },
            _ => self.stay(),
        }
    }

    /// Takes what the key-set fetch came back with, at the moment `now`.
    ///
    /// Where the identity assertion validates and the configured time to
    /// live is positive and leads to a timestamp, the refresh succeeds: the
    /// outcome is a session whose claims are the provider's subject and
    /// email, to expire the configured time from `now`, whatever the
    /// provider's own expiry, and whose new first-party token carries
    /// them.
    pub fn key_set_fetched(
        self,
        key_set: Result<String, String>,
        config: &Config,
        now: i64,
    ) -> (next: (RequestContext, RefreshAction))
        ensures
            (next.0@, next.1@) == fetched(self@, fetch_view(key_set), config@, now as int),
            owed(self@, fetch_view(key_set), config@, now as int) matches Some(claims) ==> (
            next.1@ matches RefreshActionView::Done(Ok(fresh)) && fresh.claims == claims
                && carries_claims(fresh.record.tokens.access_token, config@.key, claims)),
    {
        match self.refresh {
            RefreshState::AwaitingKeySet { record, response } => {
                let outcome = match key_set {
                    Err(detail) => Err(AuthenticationError::ProviderUnavailable(detail)),
                    Ok(body) => match claims_from_response(
                        &response,
                        body.as_str(),
                        config.google_oauth_audience.as_str(),
                    ) {
                        Err(error) => Err(error),
                        Ok(claims) => mint(record, claims, response.refresh_token, config, now),
                    },
                };
                RequestContext::settle(outcome)
            },
            _ => self.stay(),
        }
    }
}

/// What can happen in a request's context, for reasoning about whole runs.
pub enum RefreshEvent {
    Requested { record: SessionRecordView, secret: Seq<char>, now: int },
    Replied { reply: Result<ProviderResponseView, Seq<char>>, endpoint: Seq<char> },
    Fetched { key_set: Result<Seq<char>, Seq<char>>, config: ConfigView, now: int },
}

/// The step that an event stands for.
pub open spec fn step(state: RefreshStateView, event: RefreshEvent) -> (
    RefreshStateView,
    RefreshActionView,
) {
    match event {
        RefreshEvent::Requested { record, secret, now } => requested(state, record, secret, now),
        RefreshEvent::Replied { reply, endpoint } => replied(state, reply, endpoint),
        RefreshEvent::Fetched { key_set, config, now } => fetched(state, key_set, config, now),
    }
}

/// How many exchanges with the provider are asked for along a run of
/// events from a state.
pub open spec fn exchanges(state: RefreshStateView, events: Seq<RefreshEvent>) -> nat
    decreases events.len(),
{
    if events.len() == 0 {
        0
    } else {
        let (next, action) = step(state, events[0]);
        let asked: nat = if action is Exchange {
            1
        } else {
            0
        };
        asked + exchanges(next, events.drop_first())
    }
}

/// A settled context hands its outcome out again at every step, success or
/// failure alike, and stays as it is.
pub proof fn lemma_settled_outcome_is_reused(
    outcome: Result<FreshView, AuthenticationErrorView>,
    event: RefreshEvent,
)
    ensures
        step(RefreshStateView::Settled(outcome), event) == (
            RefreshStateView::Settled(outcome),
            RefreshActionView::Done(outcome),
        ),
{
}

/// Only an idle context ever asks for an exchange, and no step leads back
/// to the idle state.
pub proof fn lemma_only_idle_exchanges(state: RefreshStateView, event: RefreshEvent)
    ensures
        step(state, event).1 is Exchange ==> state is Idle,
        step(state, event).1 is Exchange ==> event is Requested,
        step(state, event).1 is Exchange ==> step(state, event).0 is AwaitingProvider,
        !(state is Idle) ==> !(step(state, event).0 is Idle),
{
}

/// From a context that is no longer idle, no run of events asks for an
/// exchange.
pub proof fn lemma_no_exchange_once_begun(state: RefreshStateView, events: Seq<RefreshEvent>)
    requires
        !(state is Idle),
    ensures
        exchanges(state, events) == 0,
    decreases events.len(),
{
    if events.len() > 0 {
        lemma_only_idle_exchanges(state, events[0]);
        lemma_no_exchange_once_begun(step(state, events[0]).0, events.drop_first());
    }
}

/// Within one request, however often and in whatever order a fresh session
/// is asked for and answers come in, at most one exchange with the provider
/// is asked for.
pub proof fn lemma_at_most_one_exchange(events: Seq<RefreshEvent>)
    ensures
        exchanges(RefreshStateView::Idle, events) <= 1,
    decreases events.len(),
{
    if events.len() > 0 {
        let (next, action) = step(RefreshStateView::Idle, events[0]);
        if next is Idle {
            lemma_at_most_one_exchange(events.drop_first());
        } else {
            lemma_no_exchange_once_begun(next, events.drop_first());
        }
    }
}

/// A request whose first step asks for a fresh session over an expired
/// token makes exactly one exchange, whatever follows: asking again does not
/// make another.
pub proof fn lemma_expired_session_exchanges_once(
    record: SessionRecordView,
    secret: Seq<char>,
    now: int,
    later: Seq<RefreshEvent>,
)
    requires
        decode_outcome(record.tokens.access_token, secret, now) == Err::<
            ClaimsView,
            AuthenticationErrorView,
        >(AuthenticationErrorView::Expired),
    ensures
        exchanges(
            RefreshStateView::Idle,
            seq![RefreshEvent::Requested { record, secret, now }] + later,
        ) == 1,
{
    let first = RefreshEvent::Requested { record, secret, now };
    let events = seq![first] + later;
    assert(events.drop_first() =~= later);
    lemma_no_exchange_once_begun(RefreshStateView::AwaitingProvider { record }, later);
}

/// How far a refresh has come: nobody has asked, the provider is awaited,
/// the key set is awaited, the matter is settled.
pub open spec fn stage(state: RefreshStateView) -> nat {
    match state {
        RefreshStateView::Idle => 0,
        RefreshStateView::AwaitingProvider { .. } => 1,
        RefreshStateView::AwaitingKeySet { .. } => 2,
        RefreshStateView::Settled(_) => 3,
    }
}

/// How many fetches of the key set are asked for along a run of events
/// from a state.
pub open spec fn fetches(state: RefreshStateView, events: Seq<RefreshEvent>) -> nat
    decreases events.len(),
{
    if events.len() == 0 {
        0
    } else {
        let (next, action) = step(state, events[0]);
        let asked: nat = if action is FetchKeySet {
            1
        } else {
            0
        };
        asked + fetches(next, events.drop_first())
    }
}

/// No step takes a refresh back: it stays where it is or moves on. The key
/// set is asked for only by the step that takes the provider's answer, and
/// that step moves on to awaiting it.
pub proof fn lemma_refresh_moves_forward(state: RefreshStateView, event: RefreshEvent)
    ensures
        stage(state) <= stage(step(state, event).0),
        step(state, event).1 is FetchKeySet ==> state is AwaitingProvider && event is Replied
            && step(state, event).0 is AwaitingKeySet,
{
}

/// From a context that awaits the key set or is settled, no run of events
/// asks for the key set.
pub proof fn lemma_no_fetch_once_asked(state: RefreshStateView, events: Seq<RefreshEvent>)
    requires
        stage(state) >= 2,
    ensures
        fetches(state, events) == 0,
    decreases events.len(),
{
    if events.len() > 0 {
        lemma_refresh_moves_forward(state, events[0]);
        lemma_no_fetch_once_asked(step(state, events[0]).0, events.drop_first());
    }
}

/// Within one request, however often and in whatever order a fresh session
/// is asked for and answers come in, the key set is asked for at most once.
pub proof fn lemma_at_most_one_fetch(state: RefreshStateView, events: Seq<RefreshEvent>)
    ensures
        fetches(state, events) <= 1,
    decreases events.len(),
{
    if events.len() > 0 {
        let (next, action) = step(state, events[0]);
        lemma_refresh_moves_forward(state, events[0]);
        if action is FetchKeySet {
            lemma_no_fetch_once_asked(next, events.drop_first());
        } else {
            lemma_at_most_one_fetch(next, events.drop_first());
        }
    }
}

/// The way of a refresh. An expired session sends its refresh token to the
/// provider; the provider's answer, if it holds an identity assertion, sends
/// for the key set at the configured endpoint; and what the key-set fetch
/// comes back with settles the matter as the reissued session or as the
/// failure to reissue it.
pub proof fn lemma_expired_session_is_reissued(
    record: SessionRecordView,
    secret: Seq<char>,
    now: int,
    response: ProviderResponseView,
    key_set: Result<Seq<char>, Seq<char>>,
    config: ConfigView,
    later: int,
)
    requires
        decode_outcome(record.tokens.access_token, secret, now) == Err::<
            ClaimsView,
            AuthenticationErrorView,
        >(AuthenticationErrorView::Expired),
        response.id_token is Some,
    ensures
        requested(RefreshStateView::Idle, record, secret, now) == (
            RefreshStateView::AwaitingProvider { record },
            RefreshActionView::Exchange { refresh_token: record.tokens.refresh_token },
        ),
        replied(
            RefreshStateView::AwaitingProvider { record },
            Ok(response),
            config.google_oauth_jwks_endpoint,
        ) == (
            RefreshStateView::AwaitingKeySet { record, response },
            RefreshActionView::FetchKeySet { endpoint: config.google_oauth_jwks_endpoint },
        ),
        fetched(RefreshStateView::AwaitingKeySet { record, response }, key_set, config, later)
            == settle(reissued(record, response, key_set, config, later)),
{
}

/// A session that is valid when it is first asked about is handed back as
/// it is, with no exchange: a refresh never replaces a valid token.
pub proof fn lemma_valid_session_is_left_alone(
    record: SessionRecordView,
    secret: Seq<char>,
    now: int,
)
    requires
        decode_outcome(record.tokens.access_token, secret, now) is Ok,
    ensures
        requested(RefreshStateView::Idle, record, secret, now) == settle(
            Ok(
                FreshView {
                    record,
                    claims: decode_outcome(record.tokens.access_token, secret, now)->Ok_0,
                },
            ),
        ),
{
}

/// A session whose token fails to decode for any reason but expiry is never
/// taken to the provider: the matter is settled as that failure at once.
pub proof fn lemma_undecodable_session_is_not_refreshed(
    record: SessionRecordView,
    secret: Seq<char>,
    now: int,
)
    requires
        decode_outcome(record.tokens.access_token, secret, now) is Err,
        !(decode_outcome(record.tokens.access_token, secret, now)->Err_0 is Expired),
    ensures
        requested(RefreshStateView::Idle, record, secret, now) == settle(
            Err(decode_outcome(record.tokens.access_token, secret, now)->Err_0),
        ),
{
}

/// A session that a refresh settles on is valid at that moment under the
/// configured secret, decodes to the claims that are handed out with it,
/// and belongs to the same provider and lifecycle state as the session that
/// went in.
pub proof fn lemma_refreshed_session_is_valid(
    record: SessionRecordView,
    response: ProviderResponseView,
    key_set: Result<Seq<char>, Seq<char>>,
    config: ConfigView,
    now: int,
)
    requires
        reissued(record, response, key_set, config, now) is Ok,
    ensures
        ({
            let fresh = reissued(record, response, key_set, config, now)->Ok_0;
            &&& decode_outcome(fresh.record.tokens.access_token, config.key, now) == Ok::<
                ClaimsView,
                AuthenticationErrorView,
            >(fresh.claims)
            &&& fresh.record.auth_type == record.auth_type
            &&& fresh.record.lifecycle == record.lifecycle
            &&& fresh.record.tokens.refresh_token == match response.refresh_token {
                Some(rotated) => rotated,
                None => record.tokens.refresh_token,
            }
        }),
{
}

} // verus!
