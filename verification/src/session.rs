//! The session record and the store adapter that moves it to and from the
//! session carrier.
//!
//! Session state is held by the client, in a carrier whose entries the
//! transport seals against tampering: there is no server-side session
//! table. The record is rebuilt from the carrier on every request. A carrier
//! that lacks any of the record's fields, or holds one that does not parse,
//! holds no session at all: partial state is never trusted.

use crate::json::{json_strings, object_json, object_text, parse_json, parsed_json, string_member};
use crate::text::{same_text, text_view};
use crate::tokens::{GoogleTokens, OAuth2Token, TokenPairView};
use vstd::prelude::*;

verus! {

/// The identity provider that a session was signed in through.
#[derive(Debug, Clone, Copy, PartialEq, Eq)]
pub enum ProviderKind {
    Google,
}

/// Whether a session is signed in.
#[derive(Debug, Clone, Copy, PartialEq, Eq)]
pub enum Lifecycle {
    LoggedOut,
    LoggedIn,
}

/// The tag that stands for a provider in the carrier.
pub open spec fn kind_tag(kind: ProviderKind) -> Seq<char> {
    match kind {
        ProviderKind::Google => "google"@,
    }
}

/// The provider that a tag stands for, if it stands for one.
pub open spec fn kind_of(tag: Seq<char>) -> Option<ProviderKind> {
    if tag == "google"@ {
        Some(ProviderKind::Google)
    } else {
        None
    }
}

/// The tag that stands for a lifecycle state in the carrier.
pub open spec fn lifecycle_tag(lifecycle: Lifecycle) -> Seq<char> {
    match lifecycle {
        Lifecycle::LoggedOut => "logged_out"@,
        Lifecycle::LoggedIn => "logged_in"@,
    }
}

/// The lifecycle state that a tag stands for, if it stands for one.
pub open spec fn lifecycle_of(tag: Seq<char>) -> Option<Lifecycle> {
    if tag == "logged_in"@ {
        Some(Lifecycle::LoggedIn)
    } else if tag == "logged_out"@ {
        Some(Lifecycle::LoggedOut)
    } else {
        None
    }
}

impl ProviderKind {
    /// The tag that stands for this provider in the carrier.
    pub fn tag(self) -> (tag: &'static str)
        ensures
            tag@ == kind_tag(self),
    {
        match self {
            ProviderKind::Google => "google",
        }
    }

    /// The provider that a tag stands for, if it stands for one.
    pub fn from_tag(tag: &str) -> (kind: Option<ProviderKind>)
        ensures
            kind == kind_of(tag@),
    {
        if same_text(tag, "google") {
            Some(ProviderKind::Google)
        } else {
            None
        }
    }
}

impl Lifecycle {
    /// The tag that stands for this state in the carrier.
    pub fn tag(self) -> (tag: &'static str)
        ensures
            tag@ == lifecycle_tag(self),
    {
        match self {
            Lifecycle::LoggedOut => "logged_out",
            Lifecycle::LoggedIn => "logged_in",
        }
    }

    /// The state that a tag stands for, if it stands for one.
    pub fn from_tag(tag: &str) -> (lifecycle: Option<Lifecycle>)
        ensures
            lifecycle == lifecycle_of(tag@),
    {
        if same_text(tag, "logged_in") {
            Some(Lifecycle::LoggedIn)
        } else if same_text(tag, "logged_out") {
            Some(Lifecycle::LoggedOut)
        } else {
            None
        }
    }
}

/// Every provider's tag stands for that provider, and every state's tag for
/// that state.
pub proof fn lemma_tags_read_back(kind: ProviderKind, lifecycle: Lifecycle)
    ensures
        kind_of(kind_tag(kind)) == Some(kind),
        lifecycle_of(lifecycle_tag(lifecycle)) == Some(lifecycle),
{
    reveal_strlit("logged_in");
    reveal_strlit("logged_out");
    assert("logged_in"@.len() != "logged_out"@.len());
}

/// A session's credential pair, tagged with the provider it belongs to.
#[derive(Debug, Clone, PartialEq, Eq)]
pub enum ProviderTokens {
    Google(GoogleTokens),
}

/// The unit that the carrier holds: which provider signed the session in,
/// its credential pair, and whether it is signed in. The provider is fixed
/// for the life of a record; a record always has its pair.
#[derive(Debug, Clone, PartialEq, Eq)]
pub struct SessionRecord {
    pub tokens: ProviderTokens,
    pub lifecycle: Lifecycle,
}

/// The mathematical value of a [`SessionRecord`].
pub struct SessionRecordView {
    pub auth_type: ProviderKind,
    pub tokens: TokenPairView,
    pub lifecycle: Lifecycle,
}

impl View for SessionRecord {
    type V = SessionRecordView;

    open spec fn view(&self) -> SessionRecordView {
        match self.tokens {
            ProviderTokens::Google(pair) => SessionRecordView {
                auth_type: ProviderKind::Google,
                tokens: pair@,
                lifecycle: self.lifecycle,
            },
        }
    }
}

impl SessionRecord {
    /// The record of a session over a credential pair.
    pub fn new(
        auth_type: ProviderKind,
        access_token: String,
        refresh_token: String,
        lifecycle: Lifecycle,
    ) -> (record: SessionRecord)
        ensures
            record@ == (SessionRecordView {
                auth_type,
                tokens: TokenPairView {
                    access_token: access_token@,
                    refresh_token: refresh_token@,
                },
                lifecycle,
            }),
    {
        match auth_type {
            ProviderKind::Google => SessionRecord {
                tokens: ProviderTokens::Google(GoogleTokens { access_token, refresh_token }),
                lifecycle,
            },
        }
    }

    /// The provider that signed this session in.
    pub fn auth_type(&self) -> (kind: ProviderKind)
        ensures
            kind == self@.auth_type,
    {
        match &self.tokens {
            ProviderTokens::Google(_) => ProviderKind::Google,
        }
    }

    /// The first-party access token.
    pub fn access_token(&self) -> (token: &str)
        ensures
            token@ == self@.tokens.access_token,
    {
        match &self.tokens {
            ProviderTokens::Google(pair) => pair.access_token(),
        }
    }

    /// The provider's refresh token.
    pub fn refresh_token(&self) -> (token: &str)
        ensures
            token@ == self@.tokens.refresh_token,
    {
        match &self.tokens {
            ProviderTokens::Google(pair) => pair.refresh_token(),
        }
    }

    /// A copy of this record.
    pub fn duplicate(&self) -> (copy: SessionRecord)
        ensures
            copy@ == self@,
    {
        match &self.tokens {
            ProviderTokens::Google(pair) => SessionRecord {
                tokens: ProviderTokens::Google(pair.duplicate()),
                lifecycle: self.lifecycle,
            },
        }
    }
}

/// The four named fields of the session carrier, each present or absent:
/// the provider tag, the serialized credential pair, the lifecycle tag, and
/// the cached profile. The carrier's own mechanics (cookies, sealing) stay
/// outside.
#[derive(Debug, Clone, PartialEq, Eq)]
pub struct Carrier {
    pub auth_type: Option<String>,
    pub tokens: Option<String>,
    pub lifecycle: Option<String>,
    pub profile: Option<String>,
}

/// The mathematical value of a [`Carrier`].
pub struct CarrierView {
    pub auth_type: Option<Seq<char>>,
    pub tokens: Option<Seq<char>>,
    pub lifecycle: Option<Seq<char>>,
    pub profile: Option<Seq<char>>,
}

impl View for Carrier {
    type V = CarrierView;

    open spec fn view(&self) -> CarrierView {
        CarrierView {
            auth_type: text_view(self.auth_type),
            tokens: text_view(self.tokens),
            lifecycle: text_view(self.lifecycle),
            profile: text_view(self.profile),
        }
    }
}

/// A credential pair as it is serialized into the carrier: a JSON object
/// with the string members `access_token` and `refresh_token`.
pub open spec fn token_pair_json(access_token: Seq<char>, refresh_token: Seq<char>) -> Seq<char> {
    object_json(("access_token"@, access_token), ("refresh_token"@, refresh_token))
}

/// The credential pair that a serialized pair holds: the text must be a
/// JSON document with string members `access_token` and `refresh_token`.
pub open spec fn pair_of(text: Seq<char>) -> Option<TokenPairView> {
    match parsed_json(text) {
        None => None,
        Some(document) => if json_strings(document).contains_key("access_token"@) && json_strings(
            document,
        ).contains_key("refresh_token"@) {
            Some(
                TokenPairView {
                    access_token: json_strings(document)["access_token"@],
                    refresh_token: json_strings(document)["refresh_token"@],
                },
            )
        } else {
            None
        },
    }
}

/// The session record that a carrier holds: all three of its fields must
/// be present and must parse.
pub open spec fn loaded(carrier: CarrierView) -> Option<SessionRecordView> {
    if carrier.auth_type is Some && kind_of(carrier.auth_type->Some_0) is Some
        && carrier.tokens is Some && pair_of(carrier.tokens->Some_0) is Some
        && carrier.lifecycle is Some && lifecycle_of(carrier.lifecycle->Some_0) is Some {
        Some(
            SessionRecordView {
                auth_type: kind_of(carrier.auth_type->Some_0)->Some_0,
                tokens: pair_of(carrier.tokens->Some_0)->Some_0,
                lifecycle: lifecycle_of(carrier.lifecycle->Some_0)->Some_0,
            },
        )
    } else {
        None
    }
}

/// The carrier after a record has been saved into it: the three session
/// fields are the record's, the cached profile is untouched.
pub open spec fn saved(carrier: CarrierView, record: SessionRecordView) -> CarrierView {
    CarrierView {
        auth_type: Some(kind_tag(record.auth_type)),
        tokens: Some(token_pair_json(record.tokens.access_token, record.tokens.refresh_token)),
        lifecycle: Some(lifecycle_tag(record.lifecycle)),
        profile: carrier.profile,
    }
}

/// The carrier with nothing in it.
pub open spec fn cleared() -> CarrierView {
    CarrierView { auth_type: None, tokens: None, lifecycle: None, profile: None }
}

/// The mathematical value of an optional record.
pub open spec fn record_view(record: Option<SessionRecord>) -> Option<SessionRecordView> {
    match record {
        Some(record) => Some(record@),
        None => None,
    }
}

/// Reads a serialized credential pair.
pub fn parse_token_pair(text: &str) -> (pair: Option<(String, String)>)
    ensures
        match pair {
            Some((access_token, refresh_token)) => pair_of(text@) == Some(
                TokenPairView { access_token: access_token@, refresh_token: refresh_token@ },
            ),
            None => pair_of(text@) is None,
        },
{
    let document = parse_json(text)?;
    let access_token = string_member(&document, "access_token")?;
    let refresh_token = string_member(&document, "refresh_token")?;
    Some((access_token, refresh_token))
}

impl Carrier {
    /// A carrier with nothing in it: the unauthenticated baseline.
    pub fn empty() -> (carrier: Carrier)
        ensures
            carrier@ == cleared(),
    {
        Carrier { auth_type: None, tokens: None, lifecycle: None, profile: None }
    }
}

/// Reads the session record out of the carrier. Nothing comes back unless
/// the provider tag, the credential pair and the lifecycle tag are all
/// there and all parse.
pub fn load(carrier: &Carrier) -> (record: Option<SessionRecord>)
    ensures
        record_view(record) == loaded(carrier@),
{
    let auth_type = match &carrier.auth_type {
        Some(tag) => ProviderKind::from_tag(tag.as_str())?,
        None => {
            return None;
        },
    };
    let (access_token, refresh_token) = match &carrier.tokens {
        Some(text) => parse_token_pair(text.as_str())?,
        None => {
            return None;
        },
    };
    let lifecycle = match &carrier.lifecycle {
        Some(tag) => Lifecycle::from_tag(tag.as_str())?,
        None => {
            return None;
        },
    };
    Some(SessionRecord::new(auth_type, access_token, refresh_token, lifecycle))
}

/// Writes the record into the carrier: all three session fields at once,
/// so that no reader sees some of them new and others stale. The cached
/// profile is left as it is. What is saved loads back as the same record.
pub fn save(carrier: &mut Carrier, record: &SessionRecord)
    ensures
        final(carrier)@ == saved(old(carrier)@, record@),
        loaded(final(carrier)@) == Some(record@),
{
    let auth_type = record.auth_type();
    proof {
        lemma_tags_read_back(auth_type, record.lifecycle);
        reveal_strlit("access_token");
        reveal_strlit("refresh_token");
        assert("access_token"@.len() != "refresh_token"@.len());
    }
    let tokens = object_text(
        ("access_token", record.access_token()),
        ("refresh_token", record.refresh_token()),
    );
    carrier.auth_type = Some(auth_type.tag().to_owned());
    carrier.tokens = Some(tokens);
    carrier.lifecycle = Some(record.lifecycle.tag().to_owned());
}

/// Removes every session field, the cached profile with them, and so
/// returns the carrier to the unauthenticated baseline.
pub fn clear(carrier: &mut Carrier)
    ensures
        final(carrier)@ == cleared(),
        loaded(final(carrier)@) is None,
{
    carrier.auth_type = None;
    carrier.tokens = None;
    carrier.lifecycle = None;
    carrier.profile = None;
}

} // verus!
