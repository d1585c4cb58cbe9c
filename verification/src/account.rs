//! The account seed manager: owns a fixed-size secret seed, derives the
//! account's signature public key from it on demand, produces the
//! network-scoped account address, and wipes the seed on request.

use vstd::prelude::*;
use vstd::slice::slice_to_vec;
use crate::chain::{Address, AddressModel, Discrimination, Kind};

verus! {

broadcast use vstd::array::group_array_axioms;

/// Number of bytes in an account seed.
pub const SEED_LENGTH: usize = 32;

/// Number of bytes in an ed25519 public key.
pub const PUBLIC_KEY_LENGTH: usize = 32;

/// Iteration count of the seed-stretching function.
pub const SEED_ITERATIONS: u32 = 4096;

/// The 32-byte key that PBKDF2 with HMAC-SHA512 derives: fixed by the
/// password, the salt and the iteration count alone.
pub uninterp spec fn pbkdf2_sha512(password: Seq<u8>, salt: Seq<u8>, iterations: u32) -> Seq<u8>;

/// The public half of the ed25519 keypair expanded from a 32-byte seed:
/// fixed by the seed alone.
pub uninterp spec fn ed25519_seed_public(seed: Seq<u8>) -> Seq<u8>;

/// Relies on `cryptoxide::pbkdf2::pbkdf2` with HMAC-SHA512: the derived
/// key is a function of the password, the salt and the iteration count
/// alone, and the whole output buffer is filled.  The call panics on an
/// iteration count of zero, so that input is left out.
#[verifier::external_body]
fn pbkdf2_sha512_bytes(password: &[u8], salt: &[u8], iterations: u32) -> (r: [u8; SEED_LENGTH])
    requires
        iterations > 0,
    ensures
        r@ == pbkdf2_sha512(password@, salt@, iterations),
{
    let mut out = [0u8; SEED_LENGTH];
    cryptoxide::pbkdf2::pbkdf2::<cryptoxide::hashing::sha2::Sha512>(
        password,
        salt,
        iterations,
        &mut out,
    );
    out
}

/// Relies on `cryptoxide::ed25519::keypair`: the keypair is computed from
/// the 32-byte seed alone, and the returned half is the 32-byte public
/// key.  The private half never leaves the call.
#[verifier::external_body]
fn keypair_public(seed: &[u8; SEED_LENGTH]) -> (r: [u8; PUBLIC_KEY_LENGTH])
    ensures
        r@ == ed25519_seed_public(seed@),
{
    let (_, pk) = cryptoxide::ed25519::keypair(seed);
    pk
}

/// The seed an account derives from the given entropy and password: the
/// password keys the stretching function and the entropy salts it.
pub open spec fn seed_of(entropy: Seq<u8>, password: Seq<u8>) -> Seq<u8> {
    pbkdf2_sha512(password, entropy, SEED_ITERATIONS)
}

/// The account public key a seed resolves to.
pub open spec fn account_public_of(seed: Seq<u8>) -> Seq<u8> {
    ed25519_seed_public(seed)
}

/// The address a seed resolves to under the given network discrimination.
pub open spec fn spec_address(seed: Seq<u8>, discrimination: Discrimination) -> AddressModel {
    AddressModel { discrimination, account_key: account_public_of(seed) }
}

/// An account identity: a fixed-size secret seed, from which the
/// signature keypair and the account address are derived on demand.
pub struct Account {
    seed: [u8; SEED_LENGTH],
}

impl View for Account {
    type V = Seq<u8>;

    closed spec fn view(&self) -> Seq<u8> {
        self.seed@
    }
}

impl Account {
    /// Stretches the given entropy and password into a fresh seed and
    /// wraps it.  Deterministic: the same entropy and password always
    /// give the same seed, and so the same keys and addresses.
    pub fn new(entropy: &[u8], password: &[u8]) -> (r: Self)
        ensures
            r@ == seed_of(entropy@, password@),
    {
        Account { seed: pbkdf2_sha512_bytes(password, entropy, SEED_ITERATIONS) }
    }

    /// Wraps an already-derived seed verbatim, with no further
    /// processing.
    pub fn from_seed(seed: [u8; SEED_LENGTH]) -> (r: Self)
        ensures
            r@ == seed@,
    {
        Account { seed }
    }

    /// Derives the signature keypair from the seed and returns only its
    /// public half; the private half does not leave this boundary.
    pub fn public(&self) -> (r: [u8; PUBLIC_KEY_LENGTH])
        ensures
            r@ == account_public_of(self@),
    {
        keypair_public(&self.seed)
    }

    /// The account address under the given network discrimination: the
    /// account's public key, scoped to that network.  The underlying
    /// identity key does not depend on the discrimination.
    pub fn address(&self, discrimination: Discrimination) -> (r: Address)
        ensures
            r@ == spec_address(self@, discrimination),
            r.wf(),
    {
        let pk = self.public();
        Address(discrimination, Kind::Account(slice_to_vec(pk.as_slice())))
    }

    /// Overwrites the whole seed with zero bytes.  After the call no
    /// byte of the former seed is readable through this account.
    pub fn wipe(&mut self)
        ensures
            final(self)@.len() == SEED_LENGTH,
            forall|i: int| 0 <= i < SEED_LENGTH ==> final(self)@[i] == 0u8,
        opens_invariants none
        no_unwind
    {
        let mut i: usize = 0;
        while i < SEED_LENGTH
            invariant
                i <= SEED_LENGTH,
                forall|j: int| 0 <= j < i ==> self.seed@[j] == 0u8,
            decreases SEED_LENGTH - i,
        {
            self.seed[i] = 0;
            i += 1;
        }
    }
}

impl Drop for Account {
    /// Secure erasure: the seed is overwritten with zero bytes before the
    /// memory is released, on every exit path.
    fn drop(&mut self)
        ensures
            forall|i: int| 0 <= i < SEED_LENGTH ==> final(self)@[i] == 0u8,
        opens_invariants none
        no_unwind
    {
        self.wipe()
    }
}

impl From<[u8; SEED_LENGTH]> for Account {
    /// Equivalent to `from_seed`: the seed is wrapped verbatim.
    fn from(seed: [u8; SEED_LENGTH]) -> (r: Account)
        ensures
            r@ == seed@,
    {
        Account { seed }
    }
}

impl vstd::std_specs::convert::FromSpecImpl<[u8; SEED_LENGTH]> for Account {
    open spec fn obeys_from_spec() -> bool {
        true
    }

    closed spec fn from_spec(seed: [u8; SEED_LENGTH]) -> Account {
        Account { seed }
    }
}

/// Determinism: an account is fixed by its entropy and password — two
/// accounts stretched from the same inputs agree on the seed, the public
/// key, and the address under every discrimination.
pub proof fn lemma_account_determinism(
    a1: Seq<u8>,
    a2: Seq<u8>,
    entropy: Seq<u8>,
    password: Seq<u8>,
    d: Discrimination,
)
    requires
        a1 == seed_of(entropy, password),
        a2 == seed_of(entropy, password),
    ensures
        a1 == a2,
        account_public_of(a1) == account_public_of(a2),
        spec_address(a1, d) == spec_address(a2, d),
{
}

/// The discrimination observably scopes the address: the same account
/// resolves to different addresses on different networks, while the
/// identity key it carries is the same on both.
pub proof fn lemma_address_discrimination(seed: Seq<u8>, d1: Discrimination, d2: Discrimination)
    requires
        d1 != d2,
    ensures
        spec_address(seed, d1) != spec_address(seed, d2),
        spec_address(seed, d1).account_key == spec_address(seed, d2).account_key,
{
    assert(spec_address(seed, d1).discrimination != spec_address(seed, d2).discrimination);
}

} // verus!
