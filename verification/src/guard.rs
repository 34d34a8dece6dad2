//! The authentication guard of the cookie path.
//!
//! For each request the guard moves through three states. A request whose
//! carrier holds no complete signed-in session is unauthenticated, and is
//! served as such by whatever route accepts it. A request with a signed-in
//! session is authenticating: the refresh coordinator is asked for a fresh
//! session. When its outcome is in, the guard concludes. A fresh session is
//! written back to the carrier and the request is authenticated; a session
//! that the outcome condemns is torn down; any other failure leaves the
//! stored session alone, for the next request to try again. Whatever the
//! failure, the request goes on without an identity: none is ever made up.

use crate::error::{condemns, AuthenticationError, AuthenticationErrorView};
use crate::profile::{profile_of, User, UserView};
use crate::refresh::{settled_view, Fresh, FreshView};
use crate::session::{
    clear, cleared, load, loaded, save, saved, Carrier, CarrierView, Lifecycle, ProviderTokens,
    SessionRecord, SessionRecordView,
};
use crate::tokens::{GoogleTokens, TokenPairView};
use vstd::prelude::*;

verus! {

/// The authenticated identity that is handed to route handlers: the email
/// that the claims assert, the session's lifecycle state, and the profile
/// that was looked up for the email.
///
/// Only the guard makes one, and it is never stored.
#[derive(Debug, Clone, PartialEq, Eq)]
pub struct Account {
    id: String,
    state: Lifecycle,
    user: User,
}

/// The mathematical value of an [`Account`].
pub struct AccountView {
    pub id: Seq<char>,
    pub state: Lifecycle,
    pub user: UserView,
}

impl View for Account {
    type V = AccountView;

    closed spec fn view(&self) -> AccountView {
        AccountView { id: self.id@, state: self.state, user: self.user@ }
    }
}

impl Account {
    /// The email that identifies the account.
    pub fn id(&self) -> (id: &str)
        ensures
            id@ == self@.id,
    {
        self.id.as_str()
    }

    /// The lifecycle state of the session.
    pub fn state(&self) -> (state: Lifecycle)
        ensures
            state == self@.state,
    {
        self.state
    }

    /// The profile that was looked up for the email.
    pub fn user(&self) -> (user: &User)
        ensures
            user@ == self@.user,
    {
        &self.user
    }
}

/// Where the guard stands for a request.
#[derive(Debug, Clone, PartialEq, Eq)]
pub enum GuardState {
    /// The request goes on without an identity.
    Unauthenticated,
    /// A signed-in session was found; whether it is fresh is being settled.
    Authenticating { record: SessionRecord, user: User },
    /// The request has an identity. This state is final.
    Authenticated(Account),
}

/// The mathematical value of a [`GuardState`].
pub enum GuardStateView {
    Unauthenticated,
    Authenticating { record: SessionRecordView, user: UserView },
    Authenticated(AccountView),
}

impl View for GuardState {
    type V = GuardStateView;

    open spec fn view(&self) -> GuardStateView {
        match self {
            GuardState::Unauthenticated => GuardStateView::Unauthenticated,
            GuardState::Authenticating { record, user } => GuardStateView::Authenticating {
                record: record@,
                user: user@,
            },
            GuardState::Authenticated(account) => GuardStateView::Authenticated(account@),
        }
    }
}

/// The state in which the guard takes up a request: authenticating when the
/// carrier holds a complete session that is signed in and a cached profile
/// that parses, and unauthenticated otherwise.
pub open spec fn received(carrier: CarrierView) -> GuardStateView {
    if loaded(carrier) is Some && loaded(carrier)->Some_0.lifecycle is LoggedIn
        && carrier.profile is Some && profile_of(carrier.profile->Some_0) is Some {
        GuardStateView::Authenticating {
            record: loaded(carrier)->Some_0,
            user: profile_of(carrier.profile->Some_0)->Some_0,
        }
    } else {
        GuardStateView::Unauthenticated
    }
}

/// What the outcome of the refresh does to the carrier: a fresh session is
/// saved, a condemned one is cleared away, and after any other failure the
/// carrier is left as it is.
pub open spec fn carried(
    carrier: CarrierView,
    outcome: Result<FreshView, AuthenticationErrorView>,
) -> CarrierView {
    match outcome {
        Ok(fresh) => saved(carrier, fresh.record),
        Err(error) => if condemns(error) {
            cleared()
        } else {
            carrier
        },
    }
}

/// The state in which the guard leaves a request: an authenticating request
/// with a fresh session is authenticated as the email of the fresh claims;
/// with any failure it is unauthenticated. The other two states are kept.
pub open spec fn concluded(
    state: GuardStateView,
    outcome: Result<FreshView, AuthenticationErrorView>,
) -> GuardStateView {
    match state {
        GuardStateView::Authenticating { record, user } => match outcome {
            Ok(fresh) => GuardStateView::Authenticated(
                AccountView { id: fresh.claims.email, state: fresh.record.lifecycle, user },
            ),
            Err(_) => GuardStateView::Unauthenticated,
        },
        _ => state,
    }
}

/// Takes up a request: reads the session and the cached profile out of the
/// carrier.
pub fn receive(carrier: &Carrier) -> (state: GuardState)
    ensures
        state@ == received(carrier@),
{
    let record = match load(carrier) {
        Some(record) => record,
        None => {
            return GuardState::Unauthenticated;
        },
    };
    match record.lifecycle {
        Lifecycle::LoggedOut => {
            return GuardState::Unauthenticated;
        },
        Lifecycle::LoggedIn => {},
    }
    let user = match &carrier.profile {
        Some(text) => User::parse(text.as_str()),
        None => None,
    };
    match user {
        Some(user) => GuardState::Authenticating { record, user },
        None => GuardState::Unauthenticated,
    }
}

/// Applies the outcome of the refresh to the carrier.
pub fn settle_carrier(carrier: &mut Carrier, outcome: &Result<Fresh, AuthenticationError>)
    ensures
        final(carrier)@ == carried(old(carrier)@, settled_view(*outcome)),
        outcome matches Ok(fresh) ==> loaded(final(carrier)@) == Some(fresh@.record),
        outcome matches Err(error) && condemns(error@) ==> loaded(final(carrier)@) is None,
{
    match outcome {
        Ok(fresh) => {
            save(carrier, fresh.record());
        },
        Err(error) => {
            if error.condemns_session() {
                clear(carrier);
            }
        },
    }
}

/// Concludes a request once the refresh coordinator's outcome is in. Only
/// an authenticating request is concluded: then, and only then, the
/// carrier is touched.
pub fn conclude(
    carrier: &mut Carrier,
    state: GuardState,
    outcome: Result<Fresh, AuthenticationError>,
) -> (next: GuardState)
    ensures
        next@ == concluded(state@, settled_view(outcome)),
        final(carrier)@ == if state@ is Authenticating {
            carried(old(carrier)@, settled_view(outcome))
        } else {
            old(carrier)@
        },
        state@ is Authenticating ==> (outcome matches Ok(fresh) ==> loaded(final(carrier)@) == Some(
            fresh@.record,
        )),
        state@ is Authenticating ==> (outcome matches Err(error) ==> (condemns(error@) ==> loaded(
            final(carrier)@,
        ) is None)),
{
    match state {
        GuardState::Authenticating { record: _, user } => {
            settle_carrier(carrier, &outcome);
            match outcome {
                Ok(fresh) => {
                    let (record, claims) = fresh.into_parts();
                    GuardState::Authenticated(
                        Account { id: claims.email, state: record.lifecycle, user },
                    )
                },
                Err(_) => GuardState::Unauthenticated,
            }
        },
        other => other,
    }
}

/// The mathematical value of an optional credential pair.
pub open spec fn pair_view(pair: Option<GoogleTokens>) -> Option<TokenPairView> {
    match pair {
        Some(pair) => Some(pair@),
        None => None,
    }
}

impl GoogleTokens {
    /// Concludes a request that asks for the session's credential pair
    /// rather than for an identity: the outcome is applied to the carrier,
    /// and a fresh session yields its pair.
    pub fn from_request(
        carrier: &mut Carrier,
        outcome: Result<Fresh, AuthenticationError>,
    ) -> (pair: Option<GoogleTokens>)
        ensures
            final(carrier)@ == carried(old(carrier)@, settled_view(outcome)),
            pair_view(pair) == match settled_view(outcome) {
                Ok(fresh) => Some(fresh.record.tokens),
                Err(_) => None,
            },
            outcome matches Ok(fresh) ==> loaded(final(carrier)@) == Some(fresh@.record),
            outcome matches Err(error) ==> (condemns(error@) ==> loaded(final(carrier)@) is None),
    {
        settle_carrier(carrier, &outcome);
        match outcome {
            Ok(fresh) => match fresh.into_parts().0.tokens {
                ProviderTokens::Google(pair) => Some(pair),
            },
            Err(_) => None,
        }
    }
}

/// The guard fails closed: a request is authenticated only if it was
/// authenticating and the refresh came out fresh, and its identity is then
/// the email of the fresh claims and the profile that the carrier held.
pub proof fn lemma_guard_fails_closed(
    state: GuardStateView,
    outcome: Result<FreshView, AuthenticationErrorView>,
)
    requires
        !(state is Authenticated),
    ensures
        concluded(state, outcome) is Authenticated <==> state is Authenticating && outcome is Ok,
        concluded(state, outcome) matches GuardStateView::Authenticated(account) ==> account.id
            == outcome->Ok_0.claims.email && account.user == state->Authenticating_user,
{
}

/// A request that failed for a reason that does not condemn its session
/// can be tried again: the carrier is as it was, so the next request is
/// taken up exactly as this one was.
pub proof fn lemma_failed_request_can_be_retried(
    carrier: CarrierView,
    error: AuthenticationErrorView,
)
    requires
        !condemns(error),
    ensures
        carried(carrier, Err(error)) == carrier,
        received(carried(carrier, Err(error))) == received(carrier),
{
}

/// A session whose token does not decode is torn down: the carrier is left
/// with no session field at all. A session that could not be refreshed
/// because the provider was out of reach is left exactly as it was stored.
pub proof fn lemma_teardown_only_when_condemned(
    carrier: CarrierView,
    error: AuthenticationErrorView,
)
    ensures
        error is Decoding ==> carried(carrier, Err(error)) == cleared(),
        error is ProviderUnavailable ==> carried(carrier, Err(error)) == carrier,
        error is Expired ==> carried(carrier, Err(error)) == carrier,
{
}

} // verus!
