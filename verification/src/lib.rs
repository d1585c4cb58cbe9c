//! Hierarchical deterministic key handling for a Cardano wallet: typed
//! keys along the BIP44 path, and an account that derives its signature
//! keypair and network address from a secret seed.

pub mod account;
pub mod bip44;
pub mod chain;
pub mod key;
