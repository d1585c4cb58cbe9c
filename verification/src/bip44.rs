//! The BIP44 derivation hierarchy for the Cardano ADA coin type: the
//! concrete five-level path, and the address-level typed key.

use vstd::prelude::*;
use crate::key::{DerivationScheme, Key, XPrv, XPub, wf_xprv, extended_public, XPUB_SIZE};

verus! {

/// The hardened BIP44 coin-type index registered for Cardano ADA.
pub const COIN_TYPE: u32 = 0x8000_0717;

/// Marker for the fifth, terminal level of the BIP44 hierarchy.
#[derive(Clone, Copy, PartialEq, Eq, Structural, Debug)]
pub struct AddressLevel;

/// A full five-level BIP44 derivation path: purpose, coin type, account,
/// change chain, and address index.  Hardened indices carry their high
/// bit set.
#[derive(Clone, Copy, PartialEq, Eq, Structural, Debug)]
pub struct DerivationPath {
    pub purpose: u32,
    pub coin_type: u32,
    pub account: u32,
    pub change: u32,
    pub index: u32,
}

impl DerivationPath {
    /// The coin-type index of this path.
    pub fn coin_type(&self) -> (r: u32)
        ensures
            r == self.coin_type,
    {
        self.coin_type
    }
}

/// A typed key at the terminal level of the BIP44 hierarchy, for the
/// Cardano ADA coin type only: every value wraps a path whose coin type
/// is `COIN_TYPE`.
pub struct Address<K> {
    key: Key<K, AddressLevel>,
}

impl<K> Address<K> {
    /// The typed key this address-level wrapper holds.
    pub closed spec fn spec_key(self) -> Key<K, AddressLevel> {
        self.key
    }

    /// Every address-level key wraps a path with the Cardano ADA coin
    /// type.
    pub open spec fn wf(self) -> bool {
        self.spec_key().spec_path().coin_type == COIN_TYPE
    }

    /// Wraps an already-validated address-level key.  The path's coin
    /// type must be the Cardano ADA coin type: a mismatch here is a bug
    /// in the deriving code, so the caller owes the check.
    pub fn new(key: Key<K, AddressLevel>) -> (r: Self)
        requires
            key.spec_path().coin_type == COIN_TYPE,
        ensures
            r.spec_key() == key,
            r.wf(),
    {
        Self { key }
    }

    /// Pairs the given key material with the derivation scheme and the
    /// address-level path it was derived on.  The path's coin type must
    /// be the Cardano ADA coin type.
    pub fn from_key(key: K, derivation_scheme: DerivationScheme, path: DerivationPath) -> (r: Self)
        requires
            path.coin_type == COIN_TYPE,
        ensures
            r.spec_key().spec_key() == key,
            r.spec_key().spec_path() == path,
            r.spec_key().spec_scheme() == derivation_scheme,
            r.wf(),
    {
        let key = Key::new(key, path, derivation_scheme);
        Self::new(key)
    }

    /// Validating variant of `from_key` for callers holding a path that
    /// was not derived upstream: accepts the key exactly when the path's
    /// coin type is the Cardano ADA coin type, and rejects it otherwise.
    pub fn try_from_key(
        key: K,
        derivation_scheme: DerivationScheme,
        path: DerivationPath,
    ) -> (r: Option<Self>)
        ensures
            match r {
                Some(a) => {
                    &&& path.coin_type == COIN_TYPE
                    &&& a.spec_key().spec_key() == key
                    &&& a.spec_key().spec_path() == path
                    &&& a.spec_key().spec_scheme() == derivation_scheme
                    &&& a.wf()
                },
                None => path.coin_type != COIN_TYPE,
            },
    {
        if path.coin_type() == COIN_TYPE {
            Some(Self::from_key(key, derivation_scheme, path))
        } else {
            None
        }
    }

    /// Read-only access to the underlying typed key.
    pub fn key(&self) -> (r: &Key<K, AddressLevel>)
        ensures
            *r == self.spec_key(),
    {
        &self.key
    }
}

impl<K: Clone> Clone for Address<K> {
    /// Cloning keeps the path, and with it well-formedness; the key
    /// material is cloned by its own rule.
    fn clone(&self) -> (r: Self)
        ensures
            r.spec_key().spec_path() == self.spec_key().spec_path(),
            r.spec_key().spec_scheme() == self.spec_key().spec_scheme(),
            r.wf() == self.wf(),
            call_ensures(K::clone, (&self.spec_key().spec_key(),), r.spec_key().spec_key()),
    {
        Address { key: self.key.clone() }
    }
}

impl<K> core::ops::Deref for Address<K> {
    type Target = Key<K, AddressLevel>;

    /// The wrapper transparently exposes the underlying typed key, as
    /// `key` does.
    fn deref(&self) -> (r: &Key<K, AddressLevel>)
        ensures
            *r == self.spec_key(),
    {
        &self.key
    }
}

/// Path invariant: no well-formed address-level key wraps a path whose
/// coin type differs from the Cardano ADA coin type — for every
/// mismatching path, construction is refused.
pub proof fn lemma_path_invariant<K>(a: Address<K>, path: DerivationPath)
    requires
        a.spec_key().spec_path() == path,
        path.coin_type != COIN_TYPE,
    ensures
        !a.wf(),
{
}

impl Address<XPrv> {
    /// Derives the public counterpart of a private address-level key:
    /// same path, same scheme, key material mapped one-way.
    pub fn public(&self) -> (r: Address<XPub>)
        requires
            wf_xprv(self.spec_key().spec_key()@),
        ensures
            r.spec_key().spec_path() == self.spec_key().spec_path(),
            r.spec_key().spec_scheme() == self.spec_key().spec_scheme(),
            r.spec_key().spec_key()@.len() == XPUB_SIZE,
            r.spec_key().spec_key()@.subrange(0, 32) == extended_public(
                self.spec_key().spec_key()@.subrange(0, 64),
            ),
            r.spec_key().spec_key()@.subrange(32, 64) == self.spec_key().spec_key()@.subrange(
                64,
                96,
            ),
            r.wf() == self.wf(),
    {
        Address { key: self.key.public() }
    }
}

} // verus!
