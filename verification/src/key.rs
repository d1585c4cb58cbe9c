//! Typed wrappers for extended ed25519 key material, paired with the
//! derivation path and scheme that produced them.
//!
//! The hierarchy level a key was derived at is carried as a marker type
//! parameter, so a key derived at one level cannot be passed where a key
//! of another level is expected.

use vstd::prelude::*;
use core::marker::PhantomData;
use crate::bip44::DerivationPath;

verus! {

/// Number of bytes in an extended private key (64-byte extended secret
/// followed by a 32-byte chain code).
pub const XPRV_SIZE: usize = 96;

/// Number of bytes in an extended public key (32-byte public key followed
/// by a 32-byte chain code).
pub const XPUB_SIZE: usize = 64;

/// Version of the child-key derivation formula a key was produced with.
#[derive(Clone, Copy, PartialEq, Eq, Structural, Debug)]
pub enum DerivationScheme {
    V2,
}

/// A byte sequence is a well-formed extended private key encoding when it
/// is 96 bytes long, the two highest bits of the last scalar byte are `01`,
/// and the three lowest bits of the first scalar byte are clear.
pub open spec fn wf_xprv(b: Seq<u8>) -> bool {
    &&& b.len() == XPRV_SIZE
    &&& (b[31] & 0xc0) == 0x40
    &&& (b[0] & 0x07) == 0
}

/// Extended private key material: a 64-byte extended secret and its
/// 32-byte chain code.  Copying private material is an explicit,
/// auditable capability.
pub struct XPrv {
    bytes: Vec<u8>,
}

/// Extended public key material: a 32-byte public key and its 32-byte
/// chain code.
pub struct XPub {
    bytes: Vec<u8>,
}

impl View for XPrv {
    type V = Seq<u8>;

    closed spec fn view(&self) -> Seq<u8> {
        self.bytes@
    }
}

impl View for XPub {
    type V = Seq<u8>;

    closed spec fn view(&self) -> Seq<u8> {
        self.bytes@
    }
}

/// The public-key half that the derivation engine computes from a 64-byte
/// extended secret: a one-way elliptic-curve mapping, fixed by the secret
/// alone.
pub uninterp spec fn extended_public(extended_secret: Seq<u8>) -> Seq<u8>;

/// Relies on `ed25519_bip32::XPrv::from_slice_verified` and
/// `ed25519_bip32::XPrv::public`: for a well-formed 96-byte encoding the
/// former succeeds, and the latter returns the 32-byte public key computed
/// by `ed25519_bip32::mk_public_key` from the extended secret, followed by
/// the chain code unchanged.
#[verifier::external_body]
fn xprv_public_bytes(prv: &XPrv) -> (r: XPub)
    requires
        wf_xprv(prv@),
    ensures
        r@.len() == XPUB_SIZE,
        r@.subrange(0, 32) == extended_public(prv@.subrange(0, 64)),
        r@.subrange(32, 64) == prv@.subrange(64, 96),
{
    let xprv = ed25519_bip32::XPrv::from_slice_verified(prv.bytes.as_slice()).unwrap();
    XPub { bytes: xprv.public().as_ref().to_vec() }
}

impl XPrv {
    /// Wraps the given bytes when they are a well-formed extended private
    /// key encoding, and rejects them otherwise.
    pub fn try_from_bytes(bytes: Vec<u8>) -> (r: Option<XPrv>)
        ensures
            match r {
                Some(k) => k@ == bytes@ && wf_xprv(bytes@),
                None => !wf_xprv(bytes@),
            },
    {
        if bytes.len() != XPRV_SIZE {
            return None;
        }
        if (bytes[31] & 0xc0) != 0x40 {
            return None;
        }
        if (bytes[0] & 0x07) != 0 {
            return None;
        }
        Some(XPrv { bytes })
    }

    /// Forces the given 96 bytes into a well-formed extended private key
    /// encoding: clears the three lowest bits of the first scalar byte,
    /// and sets the two highest bits of the last scalar byte to `01` with
    /// the third highest bit cleared.
    pub fn normalize_force3rd(bytes: Vec<u8>) -> (r: XPrv)
        requires
            bytes@.len() == XPRV_SIZE,
        ensures
            r@ == bytes@.update(0, (bytes@[0] & 0xf8) as u8).update(
                31,
                ((bytes@[31] & 0x1f) | 0x40) as u8,
            ),
            wf_xprv(r@),
    {
        let mut bytes = bytes;
        let old0: u8 = bytes[0];
        let old31: u8 = bytes[31];
        let b0: u8 = old0 & 0xf8;
        let b31: u8 = (old31 & 0x1f) | 0x40;
        bytes[0] = b0;
        bytes[31] = b31;
        proof {
            assert((b31 & 0xc0) == 0x40) by (bit_vector)
                requires
                    b31 == (old31 & 0x1f) | 0x40,
            ;
            assert((b0 & 0x07) == 0) by (bit_vector)
                requires
                    b0 == old0 & 0xf8,
            ;
        }
        XPrv { bytes }
    }

    /// Read-only access to the raw encoding.
    pub fn as_bytes(&self) -> (r: &Vec<u8>)
        ensures
            r@ == self@,
    {
        &self.bytes
    }
}

impl XPub {
    /// Wraps the given bytes when they are exactly 64 bytes long, and
    /// rejects them otherwise.
    pub fn try_from_bytes(bytes: Vec<u8>) -> (r: Option<XPub>)
        ensures
            match r {
                Some(k) => k@ == bytes@ && bytes@.len() == XPUB_SIZE,
                None => bytes@.len() != XPUB_SIZE,
            },
    {
        if bytes.len() != XPUB_SIZE {
            return None;
        }
        Some(XPub { bytes })
    }

    /// Read-only access to the raw encoding.
    pub fn as_bytes(&self) -> (r: &Vec<u8>)
        ensures
            r@ == self@,
    {
        &self.bytes
    }
}

/// Private and public key material are distinguishable encodings: an
/// extended public key is never a well-formed extended private key, so
/// one can never be wrapped where the other is expected.
pub proof fn lemma_public_is_not_private(xpub: Seq<u8>)
    requires
        xpub.len() == XPUB_SIZE,
    ensures
        !wf_xprv(xpub),
{
}

/// A key of material `K`, tagged with the hierarchy level `P` it was
/// derived at, together with the concrete derivation path and the scheme
/// that produced it.
pub struct Key<K, P> {
    key: K,
    path: DerivationPath,
    derivation_scheme: DerivationScheme,
    level: PhantomData<P>,
}

impl Clone for XPrv {
    /// A copy of private key material: same bytes, a new owner.
    fn clone(&self) -> (r: Self)
        ensures
            r@ == self@,
    {
        XPrv { bytes: self.bytes.clone() }
    }
}

impl Clone for XPub {
    /// Public key material is cheaply copyable.
    fn clone(&self) -> (r: Self)
        ensures
            r@ == self@,
    {
        XPub { bytes: self.bytes.clone() }
    }
}

impl<K: Clone, P> Clone for Key<K, P> {
    /// Cloning keeps the path and the scheme; the key material is cloned
    /// by its own rule.
    fn clone(&self) -> (r: Self)
        ensures
            r.spec_path() == self.spec_path(),
            r.spec_scheme() == self.spec_scheme(),
            call_ensures(K::clone, (&self.spec_key(),), r.spec_key()),
    {
        Key {
            key: self.key.clone(),
            path: self.path,
            derivation_scheme: self.derivation_scheme,
            level: PhantomData,
        }
    }
}

impl<K, P> Key<K, P> {
    /// The key material of this typed key.
    pub closed spec fn spec_key(self) -> K {
        self.key
    }

    /// The derivation path of this typed key.
    pub closed spec fn spec_path(self) -> DerivationPath {
        self.path
    }

    /// The derivation scheme of this typed key.
    pub closed spec fn spec_scheme(self) -> DerivationScheme {
        self.derivation_scheme
    }

    /// Pairs the given key material with the path and scheme it was
    /// derived with.  The level of the path is fixed by the marker `P`.
    pub fn new(key: K, path: DerivationPath, derivation_scheme: DerivationScheme) -> (r: Self)
        ensures
            r.spec_key() == key,
            r.spec_path() == path,
            r.spec_scheme() == derivation_scheme,
    {
        Key { key, path, derivation_scheme, level: PhantomData }
    }

    /// Read-only access to the key material.
    pub fn key(&self) -> (r: &K)
        ensures
            *r == self.spec_key(),
    {
        &self.key
    }

    /// The derivation path this key was produced with.
    pub fn path(&self) -> (r: &DerivationPath)
        ensures
            *r == self.spec_path(),
    {
        &self.path
    }

    /// The derivation scheme this key was produced with.
    pub fn derivation_scheme(&self) -> (r: DerivationScheme)
        ensures
            r == self.spec_scheme(),
    {
        self.derivation_scheme
    }
}

impl<P> Key<XPrv, P> {
    /// Derives the public counterpart of a private typed key: the path and
    /// scheme are kept, and the key material is mapped through the one-way
    /// public-key derivation.  The private material is unchanged and no
    /// part of the extended secret is placed in the result beyond the
    /// shared chain code.
    pub fn public(&self) -> (r: Key<XPub, P>)
        requires
            wf_xprv(self.spec_key()@),
        ensures
            r.spec_path() == self.spec_path(),
            r.spec_scheme() == self.spec_scheme(),
            r.spec_key()@.len() == XPUB_SIZE,
            r.spec_key()@.subrange(0, 32) == extended_public(self.spec_key()@.subrange(0, 64)),
            r.spec_key()@.subrange(32, 64) == self.spec_key()@.subrange(64, 96),
    {
        let key = xprv_public_bytes(&self.key);
        Key { key, path: self.path, derivation_scheme: self.derivation_scheme, level: PhantomData }
    }
}

} // verus!
