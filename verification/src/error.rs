//! Why an authentication attempt did not yield an identity.

use vstd::prelude::*;

verus! {

/// The ways in which a credential can fail to authenticate a request.
#[derive(Debug, Clone, PartialEq, Eq)]
pub enum AuthenticationError {
    /// No credential was presented.
    Missing,
    /// The credential is malformed, unsigned, forged, or uses a key or
    /// algorithm that is not supported. The text says which.
    Decoding(String),
    /// The credential is well formed and correctly signed, but its validity
    /// window has passed.
    Expired,
    /// The identity provider or its key set could not be reached or did not
    /// answer usefully. Nothing is known about the credential itself.
    ProviderUnavailable(String),
    /// A first-party token could not be minted: the expiry does not fit a
    /// timestamp, or signing failed. This points at the service's own
    /// configuration, not at the credential.
    Issuing(String),
}

/// The mathematical value of an [`AuthenticationError`].
pub enum AuthenticationErrorView {
    Missing,
    Decoding(Seq<char>),
    Expired,
    ProviderUnavailable(Seq<char>),
    Issuing(Seq<char>),
}

impl View for AuthenticationError {
    type V = AuthenticationErrorView;

    open spec fn view(&self) -> AuthenticationErrorView {
        match self {
            AuthenticationError::Missing => AuthenticationErrorView::Missing,
            AuthenticationError::Decoding(detail) => AuthenticationErrorView::Decoding(detail@),
            AuthenticationError::Expired => AuthenticationErrorView::Expired,
            AuthenticationError::ProviderUnavailable(detail) => {
                AuthenticationErrorView::ProviderUnavailable(detail@)
            },
            AuthenticationError::Issuing(detail) => AuthenticationErrorView::Issuing(detail@),
        }
    }
}

impl AuthenticationError {
    /// A copy of this error.
    pub fn duplicate(&self) -> (copy: AuthenticationError)
        ensures
            copy@ == self@,
    {
        match self {
            AuthenticationError::Missing => AuthenticationError::Missing,
            AuthenticationError::Decoding(detail) => AuthenticationError::Decoding(detail.clone()),
            AuthenticationError::Expired => AuthenticationError::Expired,
            AuthenticationError::ProviderUnavailable(detail) => {
                AuthenticationError::ProviderUnavailable(detail.clone())
            },
            AuthenticationError::Issuing(detail) => AuthenticationError::Issuing(detail.clone()),
        }
    }

    /// Whether a session that failed with this error is provably
    /// untrustworthy and must be torn down. A credential that does not
    /// decode is, and so is one that is not there; an expired one, an
    /// unreachable provider and a failure to issue say nothing against the
    /// session.
    pub fn condemns_session(&self) -> (condemned: bool)
        ensures
            condemned == condemns(self@),
    {
        match self {
            AuthenticationError::Decoding(_) => true,
            AuthenticationError::Missing => true,
            _ => false,
        }
    }
}

/// Whether an error condemns the session that it came from.
pub open spec fn condemns(error: AuthenticationErrorView) -> bool {
    error is Decoding || error is Missing
}

} // verus!
