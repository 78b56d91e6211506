use bitcoin::secp256k1 as outside;
use kernel_wallet::address::{Address, BitcoinNetwork, Network, SilentPaymentAddress};
use kernel_wallet::generate::{
    generate_keys, generate_taproot_address, keys_from, taproot_address, Taproot,
};
use kernel_wallet::keys::{KeyError, Scalar, SecretKey, XOnlyPublicKey};
use kernel_wallet::keys_file::{SilentPaymentKeysFile, SpendKey};
use kernel_wallet::text::{parse_hex, to_hex};
use kernel_wallet::wallet::Wallet;
use std::str::FromStr;

fn one() -> SecretKey {
    let mut bytes = [0u8; 32];
    bytes[31] = 1;
    SecretKey::from_slice(&bytes).unwrap()
}

const ORDER: &str = "fffffffffffffffffffffffffffffffebaaedce6af48a03bbfd25e8cd0364141";

fn bytes32(hex: &str) -> [u8; 32] {
    parse_hex(hex).unwrap().try_into().unwrap()
}

#[test]
fn the_public_key_of_one_is_the_generator() {
    assert_eq!(
        to_hex(&one().public_key().serialize()),
        "0279be667ef9dcbbac55a06295ce870b07029bfcdb2dce28d959f2815b16f81798"
    );
    assert_eq!(
        to_hex(&one().public_key().x_only_public_key().serialize()),
        "79be667ef9dcbbac55a06295ce870b07029bfcdb2dce28d959f2815b16f81798"
    );
}

#[test]
fn secret_keys_lie_between_zero_and_the_order() {
    assert!(SecretKey::from_slice(&[0u8; 32]).is_err());
    assert!(matches!(
        SecretKey::from_slice(&bytes32(ORDER)),
        Err(KeyError::InvalidSecretKey)
    ));
    let mut last = bytes32(ORDER);
    last[31] -= 1;
    assert_eq!(SecretKey::from_slice(&last).unwrap().secret_bytes(), last);
    assert!(SecretKey::from_slice(&[1u8; 31]).is_err());
    assert!(SecretKey::from_slice(&[1u8; 33]).is_err());
}

#[test]
fn scalars_lie_below_the_order() {
    assert_eq!(Scalar::from_be_bytes([0u8; 32]).unwrap().to_be_bytes(), [0u8; 32]);
    assert!(matches!(Scalar::from_be_bytes(bytes32(ORDER)), Err(KeyError::OutOfRange)));
    assert!(matches!(Scalar::from_be_bytes([0xffu8; 32]), Err(KeyError::OutOfRange)));
}

#[test]
fn tweaks_add_modulo_the_order() {
    let mut five = [0u8; 32];
    five[31] = 5;
    let mut six = [0u8; 32];
    six[31] = 6;
    let tweaked = one().add_tweak(&Scalar::from_be_bytes(five).unwrap()).unwrap();
    assert_eq!(tweaked.secret_bytes(), six);

    let mut minus_one = bytes32(ORDER);
    minus_one[31] -= 1;
    let back = Scalar::from_be_bytes(minus_one).unwrap();
    assert!(matches!(one().add_tweak(&back), Err(KeyError::InvalidTweak)));
    let five_again = tweaked.add_tweak(&back).unwrap();
    assert_eq!(five_again.secret_bytes(), five);
}

#[test]
fn x_only_keys_are_x_coordinates_of_points() {
    let x = one().public_key().x_only_public_key();
    assert_eq!(XOnlyPublicKey::from_slice(&x.serialize()).unwrap(), x);
    assert!(matches!(
        XOnlyPublicKey::from_slice(&[0xffu8; 32]),
        Err(KeyError::InvalidPublicKey)
    ));
    assert!(XOnlyPublicKey::from_slice(&[1u8; 31]).is_err());
    assert_eq!(x.even_public_key().serialize()[0], 2);
    assert_eq!(x.even_public_key(), one().public_key());
}

#[test]
fn signatures_verify_and_do_not_vary() {
    let digest = [7u8; 32];
    let signature = one().sign_schnorr(&digest);
    assert_eq!(signature, one().sign_schnorr(&digest));
    let secp = outside::Secp256k1::verification_only();
    let key = outside::XOnlyPublicKey::from_slice(
        &one().public_key().x_only_public_key().serialize(),
    )
    .unwrap();
    secp.verify_schnorr(
        &outside::schnorr::Signature::from_slice(&signature).unwrap(),
        &outside::Message::from_digest(digest),
        &key,
    )
    .unwrap();
}

#[test]
fn debug_forms_hide_the_secret() {
    let key = SecretKey::from_slice(&[0xc3; 32]).unwrap();
    let shown = format!("{key:?}");
    assert_eq!(shown, format!("{:?}", outside::SecretKey::from_slice(&[0xc3; 32]).unwrap()));
    for secret in ["195", "c3c3"] {
        assert!(!shown.contains(secret));
        assert!(!format!("{:?}", SpendKey::Secret(key)).contains(secret));
        let file = SilentPaymentKeysFile::new(key, SpendKey::Secret(key));
        assert!(!format!("{file:?}").contains(secret));
        let mut wallet = Wallet::new(Network::Regtest);
        wallet.spend_secret = Some(key);
        assert!(!format!("{wallet:?}").contains(secret));
    }
}

#[test]
fn generated_keys_belong_together() {
    let (first, second) = (one(), SecretKey::from_slice(&[9; 32]).unwrap());
    let (scan, spend, spend_pub) = keys_from(first, second);
    assert_eq!((scan, spend), (first, second));
    assert_eq!(spend_pub, second.public_key().x_only_public_key());

    let (scan, spend, spend_pub) = generate_keys();
    assert_eq!(spend.public_key().x_only_public_key(), spend_pub);
    assert_ne!(scan, spend);
    let (again, _, _) = generate_keys();
    assert_ne!(scan, again);
}

#[test]
fn taproot_addresses_follow_the_key() {
    let internal = "cc8a4bc64d897bddc5fbc2f670f7a8ba0b386779106cf1223c6fc5d7cd6fc115";
    let key = XOnlyPublicKey::from_slice(&bytes32(internal)).unwrap();
    let address = taproot_address(key);
    let outside = bitcoin::Address::from_str(&address)
        .unwrap()
        .require_network(bitcoin::Network::Signet)
        .unwrap();
    assert_eq!(
        to_hex(outside.script_pubkey().as_bytes()),
        "5120a60869f0dbcf1dc659c9cecbaf8050135ea9e8cdc487053f1dc6880949dc684c"
    );

    let (secret, address) = generate_taproot_address();
    assert_eq!(taproot_address(secret.public_key().x_only_public_key()), address);

    let fresh = Taproot::new().address;
    assert!(Address::parse(&fresh).unwrap().is_valid_for_network(BitcoinNetwork::Signet));
    assert_ne!(fresh, Taproot::new().address);
}

#[test]
fn addresses_know_their_networks_and_scripts() {
    let text = "bc1p5cyxnuxmeuwuvkwfem96lqzszd02n6xdcjrs20cac6yqjjwudpxqkedrcr";
    let address = Address::parse(text).unwrap();
    assert!(address.is_valid_for_network(BitcoinNetwork::Bitcoin));
    assert!(!address.is_valid_for_network(BitcoinNetwork::Regtest));
    assert!(!address.is_valid_for_network(BitcoinNetwork::Signet));
    assert_eq!(
        to_hex(&address.script_pubkey()),
        "5120a60869f0dbcf1dc659c9cecbaf8050135ea9e8cdc487053f1dc6880949dc684c"
    );
    let error = Address::parse("no address").unwrap_err();
    assert_eq!(
        error,
        bitcoin::Address::from_str("no address").unwrap_err().to_string()
    );
}

#[test]
fn silent_payment_addresses_are_read() {
    let scan = outside::PublicKey::from_slice(&one().public_key().serialize()).unwrap();
    let other = SecretKey::from_slice(&[9u8; 32]).unwrap();
    let spend = outside::PublicKey::from_slice(&other.public_key().serialize()).unwrap();
    for (outside_network, network) in [
        (silentpayments::Network::Mainnet, Network::Mainnet),
        (silentpayments::Network::Testnet, Network::Testnet),
        (silentpayments::Network::Regtest, Network::Regtest),
    ] {
        let made =
            silentpayments::SilentPaymentAddress::new(scan, spend, outside_network, 0).unwrap();
        let text: String = made.into();
        let read = SilentPaymentAddress::parse(&text).unwrap();
        assert_eq!(read.get_network(), network);
        assert!(read.same(&SilentPaymentAddress::parse(&text).unwrap()));
        let swapped =
            silentpayments::SilentPaymentAddress::new(spend, scan, outside_network, 0).unwrap();
        let swapped: String = swapped.into();
        assert!(!read.same(&SilentPaymentAddress::parse(&swapped).unwrap()));
    }
    assert!(SilentPaymentAddress::parse("sp1nothing").is_none());
}
