use hdwallet::bip44::{Address, DerivationPath, COIN_TYPE};
use hdwallet::key::{DerivationScheme, Key, XPrv};

fn ada_path() -> DerivationPath {
    DerivationPath {
        purpose: 0x8000_002c,
        coin_type: COIN_TYPE,
        account: 0x8000_0000,
        change: 0,
        index: 0,
    }
}

fn sample_xprv() -> XPrv {
    let mut bytes = vec![0u8; 96];
    for (i, b) in bytes.iter_mut().enumerate() {
        *b = i as u8;
    }
    XPrv::normalize_force3rd(bytes)
}

#[test]
fn from_key_keeps_key_path_and_scheme() {
    let address = Address::from_key(17u32, DerivationScheme::V2, ada_path());
    assert_eq!(*address.key().key(), 17u32);
    assert_eq!(address.key().path().coin_type(), COIN_TYPE);
    assert_eq!(address.key().derivation_scheme(), DerivationScheme::V2);
    // the wrapper dereferences to the typed key it holds
    assert_eq!(address.path().coin_type(), COIN_TYPE);
    assert_eq!(address.derivation_scheme(), DerivationScheme::V2);
}

#[test]
fn try_from_key_rejects_every_other_coin_type() {
    for coin_type in [0u32, 0x717, 0x8000_0000, 0x8000_0716, 0x8000_0718, u32::MAX] {
        let path = DerivationPath { coin_type, ..ada_path() };
        assert!(Address::try_from_key(17u32, DerivationScheme::V2, path).is_none());
    }
}

#[test]
fn try_from_key_accepts_the_ada_coin_type() {
    let address = Address::try_from_key(17u32, DerivationScheme::V2, ada_path()).unwrap();
    assert_eq!(address.key().path().coin_type(), COIN_TYPE);
}

#[test]
fn public_keeps_the_path_and_scheme() {
    let address = Address::new(Key::new(sample_xprv(), ada_path(), DerivationScheme::V2));
    let public = address.public();
    assert_eq!(*public.key().path(), ada_path());
    assert_eq!(public.key().derivation_scheme(), DerivationScheme::V2);
}

#[test]
fn public_matches_the_derivation_engine() {
    let xprv = sample_xprv();
    let engine_xprv = ed25519_bip32::XPrv::from_slice_verified(xprv.as_bytes()).unwrap();
    let engine_xpub = engine_xprv.public();
    let address = Address::new(Key::new(xprv, ada_path(), DerivationScheme::V2));
    let public = address.public();
    assert_eq!(public.key().key().as_bytes().as_slice(), engine_xpub.as_ref());
}

#[test]
fn public_shares_the_chain_code_only() {
    let xprv = sample_xprv();
    let chain_code: Vec<u8> = xprv.as_bytes()[64..96].to_vec();
    let extended_secret: Vec<u8> = xprv.as_bytes()[0..64].to_vec();
    let address = Address::new(Key::new(xprv, ada_path(), DerivationScheme::V2));
    let xpub = address.public();
    let xpub_bytes = xpub.key().key().as_bytes();
    assert_eq!(xpub_bytes.len(), 64);
    assert_eq!(&xpub_bytes[32..64], chain_code.as_slice());
    assert_ne!(&xpub_bytes[0..32], &extended_secret[0..32]);
}

#[test]
fn normalize_force3rd_yields_accepted_bytes() {
    let raw = vec![0xffu8; 96];
    let xprv = XPrv::normalize_force3rd(raw);
    let bytes = xprv.as_bytes().clone();
    assert_eq!(bytes[0] & 0x07, 0);
    assert_eq!(bytes[31] & 0xc0, 0x40);
    assert!(XPrv::try_from_bytes(bytes).is_some());
}

#[test]
fn try_from_bytes_rejects_malformed_encodings() {
    assert!(XPrv::try_from_bytes(vec![0u8; 95]).is_none());
    let mut bad_scalar = vec![0u8; 96];
    bad_scalar[31] = 0x00;
    assert!(XPrv::try_from_bytes(bad_scalar).is_none());
    let mut bad_low_bits = vec![0u8; 96];
    bad_low_bits[31] = 0x40;
    bad_low_bits[0] = 0x01;
    assert!(XPrv::try_from_bytes(bad_low_bits).is_none());
}

#[test]
fn clone_keeps_the_address_wrapper_usable() {
    let address = Address::new(Key::new(sample_xprv(), ada_path(), DerivationScheme::V2));
    let copy = address.clone();
    assert_eq!(*copy.key().path(), ada_path());
    assert_eq!(
        copy.public().key().key().as_bytes(),
        address.public().key().key().as_bytes()
    );
}
