use bitcoin::secp256k1 as outside;
use kernel_wallet::keys::{KeyError, SecretKey, XOnlyPublicKey};
use kernel_wallet::keys_file::{
    IoError, IoErrorKind, KeysFileError, SilentPaymentKeysFile, SpendKey, FILE_LEN, MAGIC, SPEND_TAG_SECRET,
    SPEND_TAG_XONLY_PUB,
};

fn test_keys() -> (SecretKey, SecretKey) {
    let scan = SecretKey::from_slice(&[1u8; 32]).expect("valid scan key");
    let spend = SecretKey::from_slice(&[2u8; 32]).expect("valid spend key");
    (scan, spend)
}

fn xonly_from(sk: SecretKey) -> XOnlyPublicKey {
    sk.public_key().x_only_public_key()
}

#[test]
fn roundtrip_preserves_secret_variant() {
    let (scan, spend) = test_keys();
    let original = SilentPaymentKeysFile::new(scan, SpendKey::Secret(spend));
    let bytes = original.to_bytes();
    let decoded = SilentPaymentKeysFile::from_bytes(&bytes).expect("decode");
    assert_eq!(original, decoded);
}

#[test]
fn roundtrip_preserves_xonly_public_variant() {
    let (scan, spend) = test_keys();
    let xonly = xonly_from(spend);
    let original = SilentPaymentKeysFile::new(scan, SpendKey::XOnlyPublic(xonly));
    let bytes = original.to_bytes();
    let decoded = SilentPaymentKeysFile::from_bytes(&bytes).expect("decode");
    assert_eq!(original, decoded);
}

#[test]
fn from_bytes_rejects_bad_magic() {
    let (scan, spend) = test_keys();
    let mut bytes = b"XXXX".to_vec();
    bytes.extend_from_slice(&scan.secret_bytes());
    bytes.push(SPEND_TAG_SECRET);
    bytes.extend_from_slice(&spend.secret_bytes());
    assert!(matches!(
        SilentPaymentKeysFile::from_bytes(&bytes),
        Err(KeysFileError::BadMagic)
    ));
}

#[test]
fn from_bytes_rejects_unknown_spend_tag() {
    let (scan, spend) = test_keys();
    let mut bytes = MAGIC.to_vec();
    bytes.extend_from_slice(&scan.secret_bytes());
    bytes.push(99);
    bytes.extend_from_slice(&spend.secret_bytes());
    assert!(matches!(
        SilentPaymentKeysFile::from_bytes(&bytes),
        Err(KeysFileError::UnknownSpendTag(99))
    ));
}

#[test]
fn a_file_is_magic_scan_key_tag_and_spend_key() {
    let (scan, spend) = test_keys();
    let bytes = SilentPaymentKeysFile::new(scan, SpendKey::Secret(spend)).to_bytes();
    let mut expected = b"SPKF".to_vec();
    expected.extend_from_slice(&[1u8; 32]);
    expected.push(0);
    expected.extend_from_slice(&[2u8; 32]);
    assert_eq!(bytes.len(), 69);
    assert_eq!(bytes.to_vec(), expected);

    let xonly = xonly_from(spend);
    let bytes = SilentPaymentKeysFile::new(scan, SpendKey::XOnlyPublic(xonly)).to_bytes();
    assert_eq!(bytes[36], SPEND_TAG_XONLY_PUB);
    assert_eq!(bytes[37..], xonly.serialize());
}

#[test]
fn what_was_read_is_written_back() {
    let (scan, spend) = test_keys();
    let bytes = SilentPaymentKeysFile::new(scan, SpendKey::Secret(spend)).to_bytes();
    let read = SilentPaymentKeysFile::from_bytes(&bytes).unwrap();
    assert_eq!(read.to_bytes(), bytes);
    assert_eq!(read.scan_key, scan);
    assert_eq!(read.spend_xonly(), xonly_from(spend));
}

#[test]
fn from_bytes_rejects_wrong_length() {
    for len in [0usize, 4, 68, 70] {
        let error = SilentPaymentKeysFile::from_bytes(&vec![0u8; len]).unwrap_err();
        match error {
            KeysFileError::WrongLength { expected, actual } => {
                assert_eq!(expected, FILE_LEN);
                assert_eq!(actual, len);
            }
            other => panic!("unexpected {other:?}"),
        }
    }
}

#[test]
fn from_bytes_rejects_invalid_keys() {
    let mut bytes = MAGIC.to_vec();
    bytes.extend_from_slice(&[0u8; 32]);
    bytes.push(SPEND_TAG_SECRET);
    bytes.extend_from_slice(&[2u8; 32]);
    assert!(matches!(
        SilentPaymentKeysFile::from_bytes(&bytes),
        Err(KeysFileError::InvalidKey(KeyError::InvalidSecretKey))
    ));

    let mut bytes = MAGIC.to_vec();
    bytes.extend_from_slice(&[1u8; 32]);
    bytes.push(SPEND_TAG_SECRET);
    bytes.extend_from_slice(&[0xffu8; 32]);
    assert!(matches!(
        SilentPaymentKeysFile::from_bytes(&bytes),
        Err(KeysFileError::InvalidKey(KeyError::InvalidSecretKey))
    ));

    let mut bytes = MAGIC.to_vec();
    bytes.extend_from_slice(&[1u8; 32]);
    bytes.push(SPEND_TAG_XONLY_PUB);
    bytes.extend_from_slice(&[0xffu8; 32]);
    assert!(matches!(
        SilentPaymentKeysFile::from_bytes(&bytes),
        Err(KeysFileError::InvalidKey(KeyError::InvalidPublicKey))
    ));
}

#[test]
fn keys_file_errors_say_what_is_wrong() {
    assert_eq!(
        KeysFileError::Io(IoError {
            kind: IoErrorKind::NotFound,
            text: "no such file".to_owned()
        })
        .message(),
        "i/o error: no such file"
    );
    assert_eq!(
        KeysFileError::BadMagic.message(),
        "bad magic: not a silent payments keys file"
    );
    assert_eq!(
        KeysFileError::WrongLength { expected: 69, actual: 7 }.message(),
        "wrong file length: expected 69 bytes, got 7"
    );
    assert_eq!(KeysFileError::UnknownSpendTag(99).message(), "unknown spend tag: 99");
    assert_eq!(
        KeysFileError::InvalidKey(KeyError::InvalidSecretKey).message(),
        "invalid key: malformed or out-of-range secret key"
    );
    assert_eq!(KeyError::InvalidPublicKey.message(), "malformed public key");
}

#[test]
fn key_errors_read_as_those_of_the_curve_library() {
    assert_eq!(
        KeyError::InvalidSecretKey.message(),
        outside::SecretKey::from_slice(&[0u8; 32]).unwrap_err().to_string()
    );
    assert_eq!(
        KeyError::InvalidPublicKey.message(),
        outside::XOnlyPublicKey::from_slice(&[0xffu8; 32]).unwrap_err().to_string()
    );
    assert_eq!(KeyError::InvalidTweak.message(), outside::Error::InvalidTweak.to_string());
    assert_eq!(
        KeyError::OutOfRange.message(),
        outside::Scalar::from_be_bytes([0xffu8; 32]).unwrap_err().to_string()
    );
}
