//! The identity provider's published key set.
//!
//! A key set is the list of public verification keys that the provider
//! currently signs with, each under a key identifier. It is fetched afresh
//! for every validation and never cached.

use crate::text::{same_text, text_view};
use vstd::prelude::*;

verus! {

/// What a published key is made of. Only the parameters of an RSA key are
/// kept: no other type of key is used to check a token.
#[derive(Debug, Clone, PartialEq, Eq)]
pub enum KeyMaterial {
    /// An RSA public key: modulus and exponent, base64url-encoded.
    Rsa { modulus: String, exponent: String },
    /// An elliptic-curve public key.
    EllipticCurve,
    /// A symmetric key.
    OctetKey,
    /// An octet key pair.
    OctetKeyPair,
}

/// The mathematical value of a [`KeyMaterial`].
pub enum KeyMaterialView {
    Rsa { modulus: Seq<char>, exponent: Seq<char> },
    EllipticCurve,
    OctetKey,
    OctetKeyPair,
}

impl View for KeyMaterial {
    type V = KeyMaterialView;

    open spec fn view(&self) -> KeyMaterialView {
        match self {
            KeyMaterial::Rsa { modulus, exponent } => KeyMaterialView::Rsa {
                modulus: modulus@,
                exponent: exponent@,
            },
            KeyMaterial::EllipticCurve => KeyMaterialView::EllipticCurve,
            KeyMaterial::OctetKey => KeyMaterialView::OctetKey,
            KeyMaterial::OctetKeyPair => KeyMaterialView::OctetKeyPair,
        }
    }
}

/// One published key: its identifier, the algorithm it is meant for, and
/// its material. Identifier and algorithm are optional in a key set.
#[derive(Debug, Clone, PartialEq, Eq)]
pub struct ProviderKey {
    pub key_id: Option<String>,
    pub algorithm: Option<String>,
    pub material: KeyMaterial,
}

/// The mathematical value of a [`ProviderKey`].
pub struct ProviderKeyView {
    pub key_id: Option<Seq<char>>,
    pub algorithm: Option<Seq<char>>,
    pub material: KeyMaterialView,
}

impl View for ProviderKey {
    type V = ProviderKeyView;

    open spec fn view(&self) -> ProviderKeyView {
        ProviderKeyView {
            key_id: text_view(self.key_id),
            algorithm: text_view(self.algorithm),
            material: self.material@,
        }
    }
}

/// The keys a provider publishes, in the order it lists them.
#[derive(Debug, Clone, PartialEq, Eq)]
pub struct KeySet {
    pub keys: Vec<ProviderKey>,
}

impl View for KeySet {
    type V = Seq<ProviderKeyView>;

    open spec fn view(&self) -> Seq<ProviderKeyView> {
        self.keys@.map_values(|key: ProviderKey| key@)
    }
}

/// A key answers to an identifier when it has one and it is that one.
pub open spec fn answers_to(key: ProviderKeyView, key_id: Seq<char>) -> bool {
    key.key_id == Some(key_id)
}

/// The first key in the list that answers to the identifier, if any does.
pub open spec fn found(keys: Seq<ProviderKeyView>, key_id: Seq<char>) -> Option<ProviderKeyView>
    decreases keys.len(),
{
    if keys.len() == 0 {
        None
    } else if answers_to(keys[0], key_id) {
        Some(keys[0])
    } else {
        found(keys.drop_first(), key_id)
    }
}

/// Nothing is found exactly when no key in the list answers to the
/// identifier.
pub proof fn lemma_found_none(keys: Seq<ProviderKeyView>, key_id: Seq<char>)
    ensures
        found(keys, key_id) is None <==> forall|i: int|
            0 <= i < keys.len() ==> !answers_to(#[trigger] keys[i], key_id),
    decreases keys.len(),
{
    if keys.len() > 0 {
        let rest = keys.drop_first();
        lemma_found_none(rest, key_id);
        if found(keys, key_id) is None {
            assert forall|i: int| 0 <= i < keys.len() implies !answers_to(
                #[trigger] keys[i],
                key_id,
            ) by {
                if i > 0 {
                    assert(keys[i] == rest[i - 1]);
                }
            }
        } else if !answers_to(keys[0], key_id) {
            let j = choose|j: int| 0 <= j < rest.len() && answers_to(#[trigger] rest[j], key_id);
            assert(keys[j + 1] == rest[j]);
        }
    }
}

/// What is found is a key of the list that answers to the identifier, and
/// no key before it does.
pub proof fn lemma_found_some(keys: Seq<ProviderKeyView>, key_id: Seq<char>)
    requires
        found(keys, key_id) is Some,
    ensures
        exists|i: int|
            0 <= i < keys.len() && #[trigger] keys[i] == found(keys, key_id)->Some_0 && answers_to(
                keys[i],
                key_id,
            ) && forall|j: int| 0 <= j < i ==> !answers_to(#[trigger] keys[j], key_id),
    decreases keys.len(),
{
    if answers_to(keys[0], key_id) {
        assert(keys[0] == found(keys, key_id)->Some_0);
    } else {
        let rest = keys.drop_first();
        lemma_found_some(rest, key_id);
        let i = choose|i: int|
            0 <= i < rest.len() && #[trigger] rest[i] == found(rest, key_id)->Some_0 && answers_to(
                rest[i],
                key_id,
            ) && forall|j: int| 0 <= j < i ==> !answers_to(#[trigger] rest[j], key_id);
        assert(keys[i + 1] == rest[i]);
        assert forall|j: int| 0 <= j < i + 1 implies !answers_to(#[trigger] keys[j], key_id) by {
            if j > 0 {
                assert(keys[j] == rest[j - 1]);
            }
        }
    }
}

impl KeySet {
    /// The first key that answers to the identifier, if any does.
    pub fn find(&self, key_id: &str) -> (key: Option<&ProviderKey>)
        ensures
            match key {
                Some(key) => found(self@, key_id@) == Some(key@),
                None => found(self@, key_id@) is None,
            },
    {
        let mut i: usize = 0;
        assert(self@.skip(0) =~= self@);
        while i < self.keys.len()
            invariant
                i <= self.keys.len(),
                found(self@, key_id@) == found(self@.skip(i as int), key_id@),
            decreases self.keys.len() - i,
        {
            let key = &self.keys[i];
            proof {
                assert(self@.skip(i as int).drop_first() =~= self@.skip(i + 1));
            }
            let hit = match &key.key_id {
                Some(id) => same_text(id.as_str(), key_id),
                None => false,
            };
            if hit {
                return Some(key);
            }
            i += 1;
        }
        None
    }
}

} // verus!
