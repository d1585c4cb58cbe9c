//! The network-facing address value an account resolves to: a network
//! discrimination tag paired with the identity kind it scopes.

use vstd::prelude::*;

verus! {

/// Network scope of an address: the production network or a test network.
/// Folding it into the address keeps values from one network from being
/// replayed on the other.
#[derive(Clone, Copy, PartialEq, Eq, Structural, Debug)]
pub enum Discrimination {
    Production,
    Test,
}

/// The identity an address designates.  An account kind is a single-key
/// spending identity, carrying the 32-byte ed25519 public key.
#[derive(Clone, Debug)]
pub enum Kind {
    Account(Vec<u8>),
}

/// Mathematical model of an address: its network scope and the public
/// key of the account identity it designates.
pub struct AddressModel {
    pub discrimination: Discrimination,
    pub account_key: Seq<u8>,
}

/// An address: a network discrimination tag and the identity kind it
/// applies to.
#[derive(Clone, Debug)]
pub struct Address(pub Discrimination, pub Kind);

impl View for Address {
    type V = AddressModel;

    open spec fn view(&self) -> AddressModel {
        AddressModel {
            discrimination: self.0,
            account_key: match self.1 {
                Kind::Account(pk) => pk@,
            },
        }
    }
}

impl Address {
    /// An address is well formed when its account public key is exactly
    /// 32 bytes.
    pub open spec fn wf(self) -> bool {
        self@.account_key.len() == 32
    }

    /// The network scope of this address.
    pub fn discrimination(&self) -> (r: Discrimination)
        ensures
            r == self@.discrimination,
    {
        self.0
    }

    /// The public key of the account identity this address designates.
    pub fn account_key(&self) -> (r: &Vec<u8>)
        ensures
            r@ == self@.account_key,
    {
        match &self.1 {
            Kind::Account(pk) => pk,
        }
    }
}

} // verus!
