//! The keys file: a scan secret and a spend key in 69 bytes.
use crate::keys;
use crate::keys::{KeyError, SecretKey, XOnlyPublicKey};
use crate::secp;
use crate::text;
use vstd::prelude::*;
use vstd::string::*;

verus! {

/// What a keys file starts with: `SPKF`, for silent payment key file.
pub const MAGIC: [u8; 4] = [0x53, 0x50, 0x4b, 0x46];

pub const MAGIC_LEN: usize = 4;

pub const KEY_LEN: usize = 32;

pub const TAG_LEN: usize = 1;

pub const FILE_LEN: usize = MAGIC_LEN + KEY_LEN + TAG_LEN + KEY_LEN;

pub const SPEND_TAG_SECRET: u8 = 0;

pub const SPEND_TAG_XONLY_PUB: u8 = 1;

/// `Secret` for software wallets. `XOnlyPublic` for hardware-signer / watch-only.
#[derive(Debug, Clone, Copy, PartialEq, Eq)]
pub enum SpendKey {
    Secret(SecretKey),
    XOnlyPublic(XOnlyPublicKey),
}

/// A spend key as bytes.
pub enum SpendKeyView {
    Secret(Seq<u8>),
    XOnlyPublic(Seq<u8>),
}

impl View for SpendKey {
    type V = SpendKeyView;

    open spec fn view(&self) -> SpendKeyView {
        match *self {
            SpendKey::Secret(key) => SpendKeyView::Secret(key@),
            SpendKey::XOnlyPublic(key) => SpendKeyView::XOnlyPublic(key@),
        }
    }
}

impl SpendKeyView {
    pub open spec fn valid(self) -> bool {
        match self {
            SpendKeyView::Secret(key) => secp::valid_secret_key(key),
            SpendKeyView::XOnlyPublic(key) => secp::valid_x_only_key(key),
        }
    }

    /// The x coordinate of the public key.
    pub open spec fn x_only(self) -> Seq<u8> {
        match self {
            SpendKeyView::Secret(key) => secp::public_key_of(key).skip(1),
            SpendKeyView::XOnlyPublic(key) => key,
        }
    }

    pub open spec fn tag(self) -> u8 {
        match self {
            SpendKeyView::Secret(_) => SPEND_TAG_SECRET,
            SpendKeyView::XOnlyPublic(_) => SPEND_TAG_XONLY_PUB,
        }
    }

    pub open spec fn material(self) -> Seq<u8> {
        match self {
            SpendKeyView::Secret(key) => key,
            SpendKeyView::XOnlyPublic(key) => key,
        }
    }
}

impl SpendKey {
    /// The public key without the parity of its y coordinate.
    pub fn xonly(&self) -> (res: XOnlyPublicKey)
        ensures
            res@ == self@.x_only(),
            secp::valid_x_only_key(res@),
    {
        match self {
            SpendKey::Secret(key) => key.public_key().x_only_public_key(),
            SpendKey::XOnlyPublic(key) => {
                proof {
                    use_type_invariant(key);
                }
                *key
            },
        }
    }
}

/// The keys of a wallet.
///
/// On-disk format: 4-byte magic `SPKF` (Silent Payment Key File), 32-byte scan
/// secret, 1-byte spend tag, 32-byte spend material. 69 bytes total.
#[derive(Debug, Clone, Copy, PartialEq, Eq)]
pub struct SilentPaymentKeysFile {
    pub scan_key: SecretKey,
    pub spend: SpendKey,
}

/// The keys of a wallet as bytes.
pub struct KeysFileView {
    pub scan_key: Seq<u8>,
    pub spend: SpendKeyView,
}

impl View for SilentPaymentKeysFile {
    type V = KeysFileView;

    open spec fn view(&self) -> KeysFileView {
        KeysFileView { scan_key: self.scan_key@, spend: self.spend@ }
    }
}

impl KeysFileView {
    pub open spec fn valid(self) -> bool {
        secp::valid_secret_key(self.scan_key) && self.spend.valid()
    }

    /// The bytes of the file that holds these keys.
    pub open spec fn encoded(self) -> Seq<u8> {
        MAGIC@ + self.scan_key + seq![self.spend.tag()] + self.spend.material()
    }
}

/// What kind of error reading or writing a file gave.
#[derive(Debug, Clone, Copy, PartialEq, Eq, Structural)]
pub enum IoErrorKind {
    /// A file is in the way of a new one.
    AlreadyExists,
    NotFound,
    PermissionDenied,
    Other,
}

/// The error that reading or writing a file gave, and what it says.
#[derive(Debug)]
pub struct IoError {
    pub kind: IoErrorKind,
    pub text: String,
}

/// Why a keys file cannot be used.
#[derive(Debug)]
pub enum KeysFileError {
    Io(IoError),
    BadMagic,
    WrongLength { expected: usize, actual: usize },
    UnknownSpendTag(u8),
    InvalidKey(KeyError),
}

/// What the error says to its reader.
pub open spec fn keys_file_error_text(error: KeysFileError) -> Seq<char> {
    match error {
        KeysFileError::Io(error) => "i/o error: "@ + error.text@,
        KeysFileError::BadMagic => "bad magic: not a silent payments keys file"@,
        KeysFileError::WrongLength { expected, actual } => "wrong file length: expected "@
            + text::decimal_text(expected as nat) + " bytes, got "@ + text::decimal_text(
            actual as nat,
        ),
        KeysFileError::UnknownSpendTag(tag) => "unknown spend tag: "@ + text::decimal_text(
            tag as nat,
        ),
        KeysFileError::InvalidKey(error) => "invalid key: "@ + keys::key_error_text(error),
    }
}

impl KeysFileError {
    /// What the error says to its reader.
    pub fn message(&self) -> (res: String)
        ensures
            res@ == keys_file_error_text(*self),
    {
        match self {
            KeysFileError::Io(error) => text::joined("i/o error: ", error.text.as_str()),
            KeysFileError::BadMagic => "bad magic: not a silent payments keys file".to_owned(),
            KeysFileError::WrongLength { expected, actual } => {
                let mut text = text::joined(
                    "wrong file length: expected ",
                    text::decimal(*expected as u64).as_str(),
                );
                text.append(" bytes, got ");
                text.append(text::decimal(*actual as u64).as_str());
                text
            },
            KeysFileError::UnknownSpendTag(tag) => {
                text::joined("unknown spend tag: ", text::decimal(*tag as u64).as_str())
            },
            KeysFileError::InvalidKey(error) => {
                text::joined("invalid key: ", error.message().as_str())
            },
        }
    }
}

/// What bytes hold as a keys file: the keys, or the first thing that is wrong with them.
pub open spec fn decoded(bytes: Seq<u8>) -> Result<KeysFileView, KeysFileError> {
    let scan_key = bytes.subrange(4, 36);
    let tag = bytes[36];
    let material = bytes.subrange(37, 69);
    if bytes.len() != FILE_LEN {
        Err(KeysFileError::WrongLength { expected: FILE_LEN, actual: bytes.len() as usize })
    } else if bytes.subrange(0, 4) != MAGIC@ {
        Err(KeysFileError::BadMagic)
    } else if !secp::valid_secret_key(scan_key) {
        Err(KeysFileError::InvalidKey(KeyError::InvalidSecretKey))
    } else if tag == SPEND_TAG_SECRET {
        if secp::valid_secret_key(material) {
            Ok(KeysFileView { scan_key, spend: SpendKeyView::Secret(material) })
        } else {
            Err(KeysFileError::InvalidKey(KeyError::InvalidSecretKey))
        }
    } else if tag == SPEND_TAG_XONLY_PUB {
        if secp::valid_x_only_key(material) {
            Ok(KeysFileView { scan_key, spend: SpendKeyView::XOnlyPublic(material) })
        } else {
            Err(KeysFileError::InvalidKey(KeyError::InvalidPublicKey))
        }
    } else {
        Err(KeysFileError::UnknownSpendTag(tag))
    }
}

/// Writes `from` over the bytes of `buf` that start at `at`.
fn copy_into(buf: &mut [u8; FILE_LEN], at: usize, from: &[u8])
    requires
        at + from@.len() <= FILE_LEN,
    ensures
        final(buf)@ == old(buf)@.take(at as int) + from@ + old(buf)@.skip(at + from@.len()),
{
    let mut i: usize = 0;
    while i < from.len()
        invariant
            i <= from@.len(),
            at + from@.len() <= FILE_LEN,
            buf@ == old(buf)@.take(at as int) + from@.take(i as int) + old(buf)@.skip(at + i),
        decreases from@.len() - i,
    {
        buf[at + i] = from[i];
        i += 1;
        assert(buf@ =~= old(buf)@.take(at as int) + from@.take(i as int) + old(buf)@.skip(at + i));
    }
    assert(from@.take(i as int) =~= from@);
    assert(buf@ =~= old(buf)@.take(at as int) + from@ + old(buf)@.skip(at + from@.len()));
}

fn has_magic(bytes: &[u8]) -> (res: bool)
    requires
        bytes@.len() >= 4,
    ensures
        res == (bytes@.subrange(0, 4) == MAGIC@),
{
    let res = bytes[0] == MAGIC[0] && bytes[1] == MAGIC[1] && bytes[2] == MAGIC[2] && bytes[3]
        == MAGIC[3];
    let ghost start = bytes@.subrange(0, 4);
    assert(res ==> start =~= MAGIC@);
    assert(!res ==> start[0] != MAGIC@[0] || start[1] != MAGIC@[1] || start[2] != MAGIC@[2]
        || start[3] != MAGIC@[3]);
    res
}

impl SilentPaymentKeysFile {
    pub fn new(scan_key: SecretKey, spend: SpendKey) -> (res: Self)
        ensures
            res.scan_key == scan_key,
            res.spend == spend,
    {
        SilentPaymentKeysFile { scan_key, spend }
    }

    pub fn spend_xonly(&self) -> (res: XOnlyPublicKey)
        ensures
            res@ == self@.spend.x_only(),
            secp::valid_x_only_key(res@),
    {
        self.spend.xonly()
    }

    pub fn to_bytes(&self) -> (res: [u8; FILE_LEN])
        ensures
            res@ == self@.encoded(),
            self@.valid(),
    {
        let mut buf = [0u8; FILE_LEN];
        copy_into(&mut buf, 0, &MAGIC);
        let mut at: usize = MAGIC_LEN;
        copy_into(&mut buf, at, &self.scan_key.secret_bytes());
        at += KEY_LEN;
        match &self.spend {
            SpendKey::Secret(key) => {
                buf[at] = SPEND_TAG_SECRET;
                copy_into(&mut buf, at + TAG_LEN, &key.secret_bytes());
            },
            SpendKey::XOnlyPublic(key) => {
                buf[at] = SPEND_TAG_XONLY_PUB;
                copy_into(&mut buf, at + TAG_LEN, &key.serialize());
            },
        }
        assert(buf@ =~= self@.encoded());
        buf
    }

    pub fn from_bytes(bytes: &[u8]) -> (res: Result<Self, KeysFileError>)
        ensures
            match res {
                Ok(file) => decoded(bytes@) == Ok::<KeysFileView, KeysFileError>(file@),
                Err(error) => decoded(bytes@) == Err::<KeysFileView, KeysFileError>(error),
            },
    {
        if bytes.len() != FILE_LEN {
            return Err(
                KeysFileError::WrongLength { expected: FILE_LEN, actual: bytes.len() },
            );
        }
        if !has_magic(bytes) {
            return Err(KeysFileError::BadMagic);
        }
        let scan_key = match SecretKey::from_slice(&bytes[4..36]) {
            Ok(key) => key,
            Err(error) => return Err(KeysFileError::InvalidKey(error)),
        };
        let tag = bytes[36];
        let material = &bytes[37..69];
        let spend = if tag == SPEND_TAG_SECRET {
            match SecretKey::from_slice(material) {
                Ok(key) => SpendKey::Secret(key),
                Err(error) => return Err(KeysFileError::InvalidKey(error)),
            }
        } else if tag == SPEND_TAG_XONLY_PUB {
            match XOnlyPublicKey::from_slice(material) {
                Ok(key) => SpendKey::XOnlyPublic(key),
                Err(error) => return Err(KeysFileError::InvalidKey(error)),
            }
        } else {
            return Err(KeysFileError::UnknownSpendTag(tag));
        };
        Ok(SilentPaymentKeysFile { scan_key, spend })
    }
}

/// Reading back what was written gives the same keys, of either sort.
pub proof fn decoding_undoes_encoding(keys: KeysFileView)
    requires
        keys.valid(),
    ensures
        decoded(keys.encoded()) == Ok::<KeysFileView, KeysFileError>(keys),
{
    let bytes = keys.encoded();
    assert(bytes.len() == FILE_LEN);
    assert(bytes.subrange(0, 4) =~= MAGIC@);
    assert(bytes.subrange(4, 36) =~= keys.scan_key);
    assert(bytes[36] == keys.spend.tag());
    assert(bytes.subrange(37, 69) =~= keys.spend.material());
}

/// Writing what was read gives the same bytes, and what was read is valid.
pub proof fn encoding_undoes_decoding(bytes: Seq<u8>)
    requires
        decoded(bytes) is Ok,
    ensures
        decoded(bytes)->Ok_0.valid(),
        decoded(bytes)->Ok_0.encoded() == bytes,
{
    let keys = decoded(bytes)->Ok_0;
    assert(bytes.subrange(0, 4) + bytes.subrange(4, 36) + seq![bytes[36]] + bytes.subrange(37, 69)
        =~= bytes);
    assert(keys.encoded() =~= bytes);
}

/// Where each part of the keys stands in the 69 bytes of a file, which starts with `SPKF`.
pub proof fn files_are_laid_out(keys: KeysFileView)
    requires
        keys.valid(),
    ensures
        keys.encoded().len() == 69,
        keys.encoded().subrange(0, 4) == seq![0x53u8, 0x50u8, 0x4bu8, 0x46u8],
        keys.encoded().subrange(4, 36) == keys.scan_key,
        keys.spend matches SpendKeyView::Secret(secret) ==> keys.encoded()[36] == 0
            && keys.encoded().subrange(37, 69) == secret,
        keys.spend matches SpendKeyView::XOnlyPublic(key) ==> keys.encoded()[36] == 1
            && keys.encoded().subrange(37, 69) == key,
{
    let bytes = keys.encoded();
    assert(bytes.subrange(0, 4) =~= seq![0x53u8, 0x50u8, 0x4bu8, 0x46u8]);
    assert(bytes.subrange(4, 36) =~= keys.scan_key);
    assert(bytes.subrange(37, 69) =~= keys.spend.material());
}

/// Bytes are taken exactly where they are the file of valid keys.
pub proof fn files_of_valid_keys_are_taken(bytes: Seq<u8>)
    ensures
        decoded(bytes) is Ok <==> exists|keys: KeysFileView|
            keys.valid() && #[trigger] keys.encoded() == bytes,
{
    if decoded(bytes) is Ok {
        encoding_undoes_decoding(bytes);
        assert(decoded(bytes)->Ok_0.encoded() == bytes);
    }
    if exists|keys: KeysFileView| keys.valid() && #[trigger] keys.encoded() == bytes {
        let keys = choose|keys: KeysFileView| keys.valid() && #[trigger] keys.encoded() == bytes;
        decoding_undoes_encoding(keys);
    }
}

/// What is wrong with bytes that are not taken: their number comes first, then how they start,
/// then the scan key, and then what follows it.
pub proof fn files_are_refused_for_the_first_fault(bytes: Seq<u8>)
    requires
        bytes.len() <= usize::MAX,
    ensures
        bytes.len() != 69 ==> decoded(bytes) == Err::<KeysFileView, KeysFileError>(
            KeysFileError::WrongLength { expected: 69, actual: bytes.len() as usize },
        ),
        bytes.len() == 69 && bytes.take(4) != seq![0x53u8, 0x50u8, 0x4bu8, 0x46u8] ==> decoded(
            bytes,
        ) == Err::<KeysFileView, KeysFileError>(KeysFileError::BadMagic),
        bytes.len() == 69 && bytes.take(4) == seq![0x53u8, 0x50u8, 0x4bu8, 0x46u8] ==> {
            &&& !secp::valid_secret_key(bytes.subrange(4, 36)) ==> decoded(bytes) == Err::<
                KeysFileView,
                KeysFileError,
            >(KeysFileError::InvalidKey(KeyError::InvalidSecretKey))
            &&& secp::valid_secret_key(bytes.subrange(4, 36)) ==> {
                &&& bytes[36] > 1 ==> decoded(bytes) == Err::<KeysFileView, KeysFileError>(
                    KeysFileError::UnknownSpendTag(bytes[36]),
                )
                &&& bytes[36] == 0 && !secp::valid_secret_key(bytes.skip(37)) ==> decoded(bytes)
                    == Err::<KeysFileView, KeysFileError>(
                    KeysFileError::InvalidKey(KeyError::InvalidSecretKey),
                )
                &&& bytes[36] == 1 && !secp::valid_x_only_key(bytes.skip(37)) ==> decoded(bytes)
                    == Err::<KeysFileView, KeysFileError>(
                    KeysFileError::InvalidKey(KeyError::InvalidPublicKey),
                )
                &&& bytes[36] == 0 && secp::valid_secret_key(bytes.skip(37)) ==> decoded(bytes)
                    is Ok
                &&& bytes[36] == 1 && secp::valid_x_only_key(bytes.skip(37)) ==> decoded(bytes)
                    is Ok
            }
        },
{
    assert(MAGIC@ =~= seq![0x53u8, 0x50u8, 0x4bu8, 0x46u8]);
    if bytes.len() == 69 {
        assert(bytes.take(4) =~= bytes.subrange(0, 4));
        assert(bytes.skip(37) =~= bytes.subrange(37, 69));
    }
}

/// The public spend key is that of the secret, or the one that the file holds.
pub proof fn public_spend_keys(key: Seq<u8>)
    ensures
        SpendKeyView::Secret(key).x_only() == secp::public_key_of(key).skip(1),
        SpendKeyView::XOnlyPublic(key).x_only() == key,
        SpendKeyView::Secret(key).valid() <==> secp::valid_secret_key(key),
        SpendKeyView::XOnlyPublic(key).valid() <==> secp::valid_x_only_key(key),
{
}

/// What an error says: first what is wrong, then what was found.
pub proof fn keys_file_errors_say_what_was_found(
    expected: usize,
    actual: usize,
    tag: u8,
    io: IoError,
    key: KeyError,
)
    ensures
        keys_file_error_text(KeysFileError::WrongLength { expected, actual })
            == "wrong file length: expected "@ + text::decimal_text(expected as nat)
            + " bytes, got "@ + text::decimal_text(actual as nat),
        keys_file_error_text(KeysFileError::UnknownSpendTag(tag)) == "unknown spend tag: "@
            + text::decimal_text(tag as nat),
        keys_file_error_text(KeysFileError::Io(io)) == "i/o error: "@ + io.text@,
        keys_file_error_text(KeysFileError::InvalidKey(key)) == "invalid key: "@
            + keys::key_error_text(key),
        keys_file_error_text(KeysFileError::BadMagic)
            == "bad magic: not a silent payments keys file"@,
{
}

/// The views of keys show the keys.
pub proof fn key_views_show_keys(file: SilentPaymentKeysFile, spend: SpendKey)
    ensures
        file@.scan_key == file.scan_key@,
        file@.spend == file.spend@,
        spend matches SpendKey::Secret(key) ==> spend@ == SpendKeyView::Secret(key@),
        spend matches SpendKey::XOnlyPublic(key) ==> spend@ == SpendKeyView::XOnlyPublic(key@),
{
}

/// A keys file that is made of keys and written is read back as those keys, each in its place.
pub proof fn written_keys_are_read(
    scan_key: SecretKey,
    spend: SpendKey,
    file: SilentPaymentKeysFile,
    written: [u8; FILE_LEN],
    bytes: &[u8],
    read: Result<SilentPaymentKeysFile, KeysFileError>,
)
    requires
        call_ensures(SilentPaymentKeysFile::new, (scan_key, spend), file),
        call_ensures(SilentPaymentKeysFile::to_bytes, (&file,), written),
        bytes@ == written@,
        call_ensures(SilentPaymentKeysFile::from_bytes, (bytes,), read),
    ensures
        read matches Ok(back) && back.scan_key@ == scan_key@ && back.spend@ == spend@,
{
    decoding_undoes_encoding(file@);
}

} // verus!
