//! Identity resolution: from a wallet-held account to the stable four-word
//! identity the predicates compare against.
//!
//! An identity is derived from the account's public key alone: the key's
//! compressed thirty-three byte encoding is packed into five words, those
//! words are hashed, and the hash is read as four words. Only keys of the
//! supported signature scheme resolve; any other scheme is an error.

use vstd::prelude::*;

use crate::error::Error;
use crate::types::Word;
use crate::words::{key_words_from_bytes33, key_words_of, words4_from_bytes32, words4_of};

verus! {

#[verifier::external_type_specification]
#[verifier::external_body]
/// The wallet collaborator that stores an account's key pairs.
pub struct ExWallet(essential_wallet::Wallet);

#[verifier::external_type_specification]
#[verifier::external_body]
/// A wallet-held public key, tagged with its signature scheme.
pub struct ExPublicKey(essential_signer::PublicKey);

/// The digest the platform's word hash assigns to a list of words.
pub uninterp spec fn hash_words_of(words: Seq<Word>) -> Seq<u8>;

/// Relies on essential_hash::hash_words: the thirty-two byte digest of a
/// list of words, a function of the words alone.
#[verifier::external_body]
fn hash_words(words: &Vec<Word>) -> (h: Vec<u8>)
    ensures
        h@ == hash_words_of(words@),
        h@.len() == 32,
{
    essential_hash::hash_words(words).to_vec()
}

/// Relies on essential_wallet::Wallet::get_public_key: fetches the public
/// key stored under an account name. What key comes back depends on the
/// wallet's store, so nothing is promised of a success; a failure is
/// reported as a wallet-access error.
#[verifier::external_body]
pub(crate) fn wallet_public_key(wallet: &mut essential_wallet::Wallet, name: &str) -> (r: Result<
    essential_signer::PublicKey,
    Error,
>)
    ensures
        r matches Err(e) ==> e == Error::WalletAccess,
{
    wallet.get_public_key(name).map_err(|_| Error::WalletAccess)
}

/// Relies on secp256k1::PublicKey::serialize: the thirty-three byte
/// compressed encoding of a key of the supported scheme. A key of any other
/// scheme yields `None`.
#[verifier::external_body]
pub(crate) fn serialize_secp256k1(key: &essential_signer::PublicKey) -> (r: Option<Vec<u8>>)
    ensures
        r matches Some(b) ==> b@.len() == 33,
{
    match key {
        essential_signer::PublicKey::Secp256k1(k) => Some(k.serialize().to_vec()),
        essential_signer::PublicKey::Ed25519(_) => None,
    }
}

/// The identity derived from a compressed public key's bytes: the key's five
/// words hashed, and the digest read as four words.
pub open spec fn identity_of(key_bytes: Seq<u8>) -> Seq<Word> {
    words4_of(hash_words_of(key_words_of(key_bytes)))
}

/// Derives the four-word identity of the account whose compressed public key
/// is `key_bytes`.
pub fn identity_from_key_bytes(key_bytes: &Vec<u8>) -> (id: [Word; 4])
    requires
        key_bytes@.len() == 33,
    ensures
        id@ == identity_of(key_bytes@),
{
    let words = key_words_from_bytes33(key_bytes);
    let digest = hash_words(&words);
    let packed = words4_from_bytes32(&digest);
    let id = [packed[0], packed[1], packed[2], packed[3]];
    proof {
        assert(id@ =~= identity_of(key_bytes@));
    }
    id
}

/// Derives the four-word identity of a wallet-held public key: the key must
/// be of the supported signature scheme, and the identity is then a function
/// of its compressed encoding alone. A key of any other scheme is rejected.
pub fn identity_from_public_key(key: &essential_signer::PublicKey) -> (r: Result<[Word; 4], Error>)
    ensures
        r matches Ok(id) ==> exists|b: Seq<u8>| b.len() == 33 && id@ == identity_of(b),
        r matches Err(e) ==> e == Error::InvalidPublicKey,
{
    match serialize_secp256k1(key) {
        Some(bytes) => {
            let id = identity_from_key_bytes(&bytes);
            proof {
                assert(bytes@.len() == 33 && id@ == identity_of(bytes@));
            }
            Ok(id)
        },
        None => Err(Error::InvalidPublicKey),
    }
}

/// Identity resolution is deterministic: the same key material always
/// derives the same four-word identity, in this call or any other.
pub proof fn lemma_identity_deterministic(b1: Seq<u8>, b2: Seq<u8>)
    requires
        b1 == b2,
    ensures
        identity_of(b1) == identity_of(b2),
{
}

} // verus!
