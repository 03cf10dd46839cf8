use essential_apps::error::Error;
use essential_apps::multisig::{Addresses, App};
use essential_apps::types::{ContentAddress, PredicateAddress};

fn test_addresses() -> Addresses {
    let pa = |b: u8| PredicateAddress {
        contract: ContentAddress([9u8; 32]),
        predicate: ContentAddress([b; 32]),
    };
    Addresses {
        multisig_wallet: ContentAddress([9u8; 32]),
        propose_transaction: pa(0),
        approve_transaction: pa(1),
        propose_add_member: pa(2),
        approve_add_member: pa(3),
        propose_remove_member: pa(4),
        approve_remove_member: pa(5),
        propose_update_min_approvals: pa(6),
        approve_update_min_approvals: pa(7),
    }
}

#[test]
fn hashed_key_is_deterministic() {
    let mut wallet = essential_wallet::Wallet::temp().unwrap();
    wallet
        .new_key_pair("alice", essential_wallet::Scheme::Secp256k1)
        .unwrap();
    let mut app = App::new(test_addresses(), wallet);
    let first = app.get_hashed_key("alice").unwrap();
    let second = app.get_hashed_key("alice").unwrap();
    assert_eq!(first, second);
}

#[test]
fn hashed_key_matches_platform_encoding() {
    let mut wallet = essential_wallet::Wallet::temp().unwrap();
    wallet
        .new_key_pair("alice", essential_wallet::Scheme::Secp256k1)
        .unwrap();
    let public_key = match wallet.get_public_key("alice").unwrap() {
        essential_signer::PublicKey::Secp256k1(pk) => pk,
        _ => panic!("expected a secp256k1 key"),
    };
    let expected = essential_types::convert::word_4_from_u8_32(essential_hash::hash_words(
        &essential_sign::encode::public_key(&public_key),
    ));
    let mut app = App::new(test_addresses(), wallet);
    assert_eq!(app.get_hashed_key("alice").unwrap(), expected);
}

#[test]
fn identity_fails_on_unsupported_scheme() {
    let signing_key = essential_signer::ed25519_dalek::SigningKey::from_bytes(&[7u8; 32]);
    let key = essential_signer::PublicKey::Ed25519(signing_key.verifying_key());
    assert_eq!(
        essential_apps::identity::identity_from_public_key(&key),
        Err(Error::InvalidPublicKey)
    );
}

#[test]
fn identity_accepts_supported_scheme() {
    let mut wallet = essential_wallet::Wallet::temp().unwrap();
    wallet
        .new_key_pair("alice", essential_wallet::Scheme::Secp256k1)
        .unwrap();
    let key = wallet.get_public_key("alice").unwrap();
    assert!(essential_apps::identity::identity_from_public_key(&key).is_ok());
}

#[test]
fn hashed_key_fails_on_unknown_account() {
    let wallet = essential_wallet::Wallet::temp().unwrap();
    let mut app = App::new(test_addresses(), wallet);
    assert_eq!(app.get_hashed_key("nobody"), Err(Error::WalletAccess));
}
