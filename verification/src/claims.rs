//! The identity facts carried inside a signed token.

use vstd::prelude::*;

verus! {

/// Subject, email and expiry, as asserted by the identity provider and
/// re-signed by this system. `exp` is in seconds since the Unix epoch.
#[derive(Debug, Clone, PartialEq, Eq)]
pub struct Claims {
    pub sub: String,
    pub email: String,
    pub exp: i64,
}

/// The mathematical value of a [`Claims`].
pub struct ClaimsView {
    pub sub: Seq<char>,
    pub email: Seq<char>,
    pub exp: int,
}

impl View for Claims {
    type V = ClaimsView;

    open spec fn view(&self) -> ClaimsView {
        ClaimsView { sub: self.sub@, email: self.email@, exp: self.exp as int }
    }
}

impl Claims {
    /// A copy of these claims.
    pub fn duplicate(&self) -> (copy: Claims)
        ensures
            copy@ == self@,
    {
        Claims { sub: self.sub.clone(), email: self.email.clone(), exp: self.exp }
    }
}

} // verus!
