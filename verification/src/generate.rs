//! Fresh keys, and the taproot address of one.
use crate::address;
use crate::address::{p2tr_address, BitcoinNetwork};
use crate::keys::{PublicKey, SecretKey, XOnlyPublicKey};
use crate::secp;
use crate::secp::random_keypair;
use vstd::prelude::*;

verus! {

/// A fresh scan secret, a fresh spend secret, and the public key of the second without the
/// parity of its y coordinate.
pub fn generate_keys() -> (res: (SecretKey, SecretKey, XOnlyPublicKey))
    ensures
        secp::valid_secret_key(res.0@),
        secp::valid_secret_key(res.1@),
        res.2@ == secp::public_key_of(res.1@).skip(1),
{
    let scan_priv = SecretKey::random();
    let spend_priv = SecretKey::random();
    keys_from(scan_priv, spend_priv)
}

/// The two secrets, and the public key of the second without the parity of its y coordinate.
pub fn keys_from(scan: SecretKey, spend: SecretKey) -> (res: (
    SecretKey,
    SecretKey,
    XOnlyPublicKey,
))
    ensures
        res.0@ == scan@,
        res.1@ == spend@,
        res.2@ == secp::public_key_of(spend@).skip(1),
{
    let spend_xonly = spend.public_key().x_only_public_key();
    (scan, spend, spend_xonly)
}

/// The signet address that a key alone can spend from.
pub fn taproot_address(internal_key: XOnlyPublicKey) -> (res: String)
    ensures
        res@ == address::taproot_address(internal_key@, BitcoinNetwork::Signet),
{
    p2tr_address(&internal_key.serialize(), BitcoinNetwork::Signet)
}

/// A fresh secret key and its signet address.
pub fn generate_taproot_address() -> (res: (SecretKey, String))
    ensures
        secp::valid_secret_key(res.0@),
        res.1@ == address::taproot_address(
            secp::public_key_of(res.0@).skip(1),
            BitcoinNetwork::Signet,
        ),
{
    let (secret, public) = random_keypair();
    let key = SecretKey::from_valid(secret);
    let internal_key = PublicKey::from_point(public).x_only_public_key();
    (key, taproot_address(internal_key))
}

/// A fresh signet address whose secret key nobody keeps.
#[derive(Debug)]
pub struct Taproot {
    pub address: String,
}

impl Taproot {
    pub fn new() -> (res: Self)
        ensures
            exists|secret: Seq<u8>|
                secp::valid_secret_key(secret) && res.address@ == address::taproot_address(
                    #[trigger] secp::public_key_of(secret).skip(1),
                    BitcoinNetwork::Signet,
                ),
    {
        let (secret, address) = generate_taproot_address();
        assert(secp::valid_secret_key(secret@));
        Taproot { address }
    }
}

/// Keys that are made from secrets are these secrets, in their order, and the x coordinate of the
/// second one's public key; the address of a key is its own on signet.
pub proof fn keys_come_from_their_secrets(
    scan: SecretKey,
    spend: SecretKey,
    made: (SecretKey, SecretKey, XOnlyPublicKey),
    key: XOnlyPublicKey,
    address: String,
)
    ensures
        call_ensures(keys_from, (scan, spend), made) ==> made.0@ == scan@ && made.1@ == spend@
            && made.2@ == secp::public_key_of(spend@).skip(1),
        call_ensures(taproot_address, (key,), address) ==> address@ == address::taproot_address(
            key@,
            BitcoinNetwork::Signet,
        ),
{
}

} // verus!
