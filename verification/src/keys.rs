//! Keys, each held as the bytes that spell it and valid by construction.
use crate::secp;
use vstd::prelude::*;
use vstd::string::*;

verus! {

/// Why bytes are no key, or a key cannot be tweaked.
#[derive(Debug, Clone, Copy, PartialEq, Eq, Structural)]
pub enum KeyError {
    InvalidSecretKey,
    InvalidPublicKey,
    InvalidTweak,
    /// The number is at or above the order of the curve.
    OutOfRange,
}

/// What the error says to its reader.
pub open spec fn key_error_text(error: KeyError) -> Seq<char> {
    match error {
        KeyError::InvalidSecretKey => "malformed or out-of-range secret key"@,
        KeyError::InvalidPublicKey => "malformed public key"@,
        KeyError::InvalidTweak => "bad tweak"@,
        KeyError::OutOfRange => "the value is not a member of secp256k1 field"@,
    }
}

impl KeyError {
    pub fn message(&self) -> (res: String)
        ensures
            res@ == key_error_text(*self),
    {
        let text = match self {
            KeyError::InvalidSecretKey => "malformed or out-of-range secret key",
            KeyError::InvalidPublicKey => "malformed public key",
            KeyError::InvalidTweak => "bad tweak",
            KeyError::OutOfRange => "the value is not a member of secp256k1 field",
        };
        text.to_owned()
    }
}

/// A secret key. Its `Debug` form hides the secret.
#[derive(Clone, Copy, PartialEq, Eq)]
pub struct SecretKey {
    bytes: [u8; 32],
}

/// What std writes `Debug` forms to.
#[verifier::external_type_specification]
#[verifier::external_body]
pub struct ExFormatter<'a>(core::fmt::Formatter<'a>);

/// The error of writing to it.
#[verifier::external_type_specification]
#[verifier::external_body]
pub struct ExFmtError(core::fmt::Error);

impl core::fmt::Debug for SecretKey {
    /// Calls `fmt` of the `secp256k1` crate's secret key, which writes a hash of the key and not
    /// the key.
    #[verifier::external_body]
    fn fmt(&self, f: &mut core::fmt::Formatter<'_>) -> core::fmt::Result {
        bitcoin::secp256k1::SecretKey::from_slice(&self.bytes).unwrap().fmt(f)
    }
}

impl View for SecretKey {
    type V = Seq<u8>;

    closed spec fn view(&self) -> Seq<u8> {
        self.bytes@
    }
}

impl SecretKey {
    /// Holds of every key that code can come by.
    #[verifier::type_invariant]
    pub open spec fn well_formed(self) -> bool {
        secp::valid_secret_key(self@)
    }

    /// Takes 32 bytes that spell a number between zero and the curve's order.
    pub fn from_slice(data: &[u8]) -> (res: Result<Self, KeyError>)
        ensures
            res is Ok <==> secp::valid_secret_key(data@),
            res matches Ok(key) ==> key@ == data@,
            res matches Err(error) ==> error == KeyError::InvalidSecretKey,
    {
        match secp::parse_secret_key(data) {
            Ok(bytes) => Ok(SecretKey { bytes }),
            Err(_) => Err(KeyError::InvalidSecretKey),
        }
    }

    /// Takes bytes that another call has found to be a key.
    pub(crate) fn from_valid(bytes: [u8; 32]) -> (res: Self)
        requires
            secp::valid_secret_key(bytes@),
        ensures
            res@ == bytes@,
    {
        SecretKey { bytes }
    }

    /// Draws a new key from the operating system's random numbers.
    pub fn random() -> (res: Self)
        ensures
            secp::valid_secret_key(res@),
    {
        let bytes = secp::random_secret_key();
        SecretKey { bytes }
    }

    pub fn secret_bytes(&self) -> (res: [u8; 32])
        ensures
            res@ == self@,
            secp::valid_secret_key(res@),
    {
        proof {
            use_type_invariant(self);
        }
        self.bytes
    }

    pub fn public_key(&self) -> (res: PublicKey)
        ensures
            res@ == secp::public_key_of(self@),
            secp::valid_public_key(res@),
    {
        proof {
            use_type_invariant(self);
        }
        let bytes = secp::derive_public_key(&self.bytes);
        PublicKey { bytes }
    }

    /// Adds `tweak` modulo the curve's order; a sum of zero is no key.
    pub fn add_tweak(&self, tweak: &Scalar) -> (res: Result<SecretKey, KeyError>)
        ensures
            res is Ok <==> secp::tweaked_value(self@, tweak@) != 0,
            res matches Ok(key) ==> secp::valid_secret_key(key@) && key@ == secp::tweaked_key(
                self@,
                tweak@,
            ),
            res matches Err(error) ==> error == KeyError::InvalidTweak,
    {
        proof {
            use_type_invariant(self);
            use_type_invariant(tweak);
        }
        match secp::add_tweak(&self.bytes, &tweak.bytes) {
            Ok(bytes) => {
                proof {
                    secp::be_bytes_of_value(bytes@);
                }
                Ok(SecretKey { bytes })
            },
            Err(_) => Err(KeyError::InvalidTweak),
        }
    }

    /// Signs a digest by the Schnorr scheme, without random numbers.
    pub fn sign_schnorr(&self, digest: &[u8; 32]) -> (res: [u8; 64])
        ensures
            res@ == secp::schnorr_signature(digest@, self@),
    {
        proof {
            use_type_invariant(self);
        }
        secp::sign_schnorr(digest, &self.bytes)
    }
}

/// A number below the curve's order.
#[derive(Debug, Clone, Copy, PartialEq, Eq)]
pub struct Scalar {
    bytes: [u8; 32],
}

impl View for Scalar {
    type V = Seq<u8>;

    closed spec fn view(&self) -> Seq<u8> {
        self.bytes@
    }
}

impl Scalar {
    /// Holds of every key that code can come by.
    #[verifier::type_invariant]
    pub open spec fn well_formed(self) -> bool {
        secp::valid_scalar(self@)
    }

    pub fn from_be_bytes(value: [u8; 32]) -> (res: Result<Self, KeyError>)
        ensures
            res is Ok <==> secp::valid_scalar(value@),
            res matches Ok(scalar) ==> scalar@ == value@,
            res matches Err(error) ==> error == KeyError::OutOfRange,
    {
        match secp::parse_scalar(value) {
            Ok(bytes) => Ok(Scalar { bytes }),
            Err(_) => Err(KeyError::OutOfRange),
        }
    }

    pub fn to_be_bytes(&self) -> (res: [u8; 32])
        ensures
            res@ == self@,
            secp::valid_scalar(res@),
    {
        proof {
            use_type_invariant(self);
        }
        self.bytes
    }
}

/// A point of the curve in its compressed form.
#[derive(Debug, Clone, Copy, PartialEq, Eq)]
pub struct PublicKey {
    bytes: [u8; 33],
}

impl View for PublicKey {
    type V = Seq<u8>;

    closed spec fn view(&self) -> Seq<u8> {
        self.bytes@
    }
}

impl PublicKey {
    /// Holds of every key that code can come by.
    #[verifier::type_invariant]
    pub open spec fn well_formed(self) -> bool {
        secp::valid_public_key(self@)
    }

    /// Takes the compressed form that another call has found to be a point.
    pub(crate) fn from_point(bytes: [u8; 33]) -> (res: Self)
        requires
            secp::valid_public_key(bytes@),
        ensures
            res@ == bytes@,
    {
        PublicKey { bytes }
    }

    pub fn serialize(&self) -> (res: [u8; 33])
        ensures
            res@ == self@,
            secp::valid_public_key(res@),
    {
        proof {
            use_type_invariant(self);
        }
        self.bytes
    }

    /// The x coordinate: the parity of y is dropped.
    pub fn x_only_public_key(&self) -> (res: XOnlyPublicKey)
        ensures
            res@ == self@.skip(1),
            secp::valid_x_only_key(res@),
    {
        proof {
            use_type_invariant(self);
        }
        let mut bytes = [0u8; 32];
        let mut i: usize = 0;
        while i < 32
            invariant
                i <= 32,
                forall|j: int| 0 <= j < i ==> bytes@[j] == self.bytes@[j + 1],
            decreases 32 - i,
        {
            bytes[i] = self.bytes[i + 1];
            i += 1;
        }
        assert(bytes@ =~= self@.skip(1));
        XOnlyPublicKey { bytes }
    }
}

/// The x coordinate of a point of the curve.
#[derive(Debug, Clone, Copy, PartialEq, Eq)]
pub struct XOnlyPublicKey {
    pub(crate) bytes: [u8; 32],
}

impl View for XOnlyPublicKey {
    type V = Seq<u8>;

    closed spec fn view(&self) -> Seq<u8> {
        self.bytes@
    }
}

impl XOnlyPublicKey {
    /// Holds of every key that code can come by.
    #[verifier::type_invariant]
    pub open spec fn well_formed(self) -> bool {
        secp::valid_x_only_key(self@)
    }

    /// Takes 32 bytes that spell the x coordinate of a point.
    pub fn from_slice(data: &[u8]) -> (res: Result<Self, KeyError>)
        ensures
            res is Ok <==> secp::valid_x_only_key(data@),
            res matches Ok(key) ==> key@ == data@,
            res matches Err(error) ==> error == KeyError::InvalidPublicKey,
    {
        match secp::parse_x_only_key(data) {
            Ok(bytes) => Ok(XOnlyPublicKey { bytes }),
            Err(_) => Err(KeyError::InvalidPublicKey),
        }
    }

    pub fn serialize(&self) -> (res: [u8; 32])
        ensures
            res@ == self@,
            secp::valid_x_only_key(res@),
    {
        proof {
            use_type_invariant(self);
        }
        self.bytes
    }

    /// The point with this x coordinate and an even y.
    pub fn even_public_key(&self) -> (res: PublicKey)
        ensures
            res@ == seq![2u8] + self@,
            secp::valid_public_key(res@),
    {
        proof {
            use_type_invariant(self);
        }
        let mut bytes = [0u8; 33];
        bytes[0] = 2;
        let mut i: usize = 0;
        while i < 32
            invariant
                i <= 32,
                bytes@[0] == 2,
                forall|j: int| 1 <= j <= i ==> bytes@[j] == self.bytes@[j - 1],
            decreases 32 - i,
        {
            bytes[i + 1] = self.bytes[i];
            i += 1;
        }
        assert(bytes@ =~= seq![2u8] + self@);
        assert(bytes@.skip(1) =~= self@);
        PublicKey { bytes }
    }
}

/// Bytes that are a key are that key, and are given back as they were taken; all others are
/// refused for what they are not.
pub proof fn keys_are_their_bytes(
    data: &[u8],
    secret: Result<SecretKey, KeyError>,
    x_only: Result<XOnlyPublicKey, KeyError>,
    value: [u8; 32],
    scalar: Result<Scalar, KeyError>,
    back: [u8; 32],
)
    ensures
        call_ensures(SecretKey::from_slice, (data,), secret) ==> secret == if secp::valid_secret_key(
            data@,
        ) {
            Ok::<SecretKey, KeyError>(secret->Ok_0)
        } else {
            Err::<SecretKey, KeyError>(KeyError::InvalidSecretKey)
        },
        call_ensures(SecretKey::from_slice, (data,), secret) && secret is Ok && call_ensures(
            SecretKey::secret_bytes,
            (&secret->Ok_0,),
            back,
        ) ==> back@ == data@,
        call_ensures(XOnlyPublicKey::from_slice, (data,), x_only) ==> x_only
            == if secp::valid_x_only_key(data@) {
            Ok::<XOnlyPublicKey, KeyError>(x_only->Ok_0)
        } else {
            Err::<XOnlyPublicKey, KeyError>(KeyError::InvalidPublicKey)
        },
        call_ensures(XOnlyPublicKey::from_slice, (data,), x_only) && x_only is Ok && call_ensures(
            XOnlyPublicKey::serialize,
            (&x_only->Ok_0,),
            back,
        ) ==> back@ == data@,
        call_ensures(Scalar::from_be_bytes, (value,), scalar) ==> scalar == if secp::valid_scalar(
            value@,
        ) {
            Ok::<Scalar, KeyError>(scalar->Ok_0)
        } else {
            Err::<Scalar, KeyError>(KeyError::OutOfRange)
        },
        call_ensures(Scalar::from_be_bytes, (value,), scalar) && scalar is Ok && call_ensures(
            Scalar::to_be_bytes,
            (&scalar->Ok_0,),
            back,
        ) ==> back@ == value@,
{
}

/// A point loses its parity and nothing else when its x coordinate is taken, and an x coordinate
/// stands for its point of even y, which has that x coordinate again.
pub proof fn points_and_x_coordinates(
    point: PublicKey,
    x_only: XOnlyPublicKey,
    even: PublicKey,
    again: XOnlyPublicKey,
)
    ensures
        call_ensures(PublicKey::x_only_public_key, (&point,), x_only) && point@.len() == 33
            ==> x_only@.len() == 32 && forall|i: int|
            0 <= i < 32 ==> #[trigger] x_only@[i] == point@[i + 1],
        call_ensures(XOnlyPublicKey::even_public_key, (&x_only,), even) && call_ensures(
            PublicKey::x_only_public_key,
            (&even,),
            again,
        ) ==> again@ == x_only@ && even@[0] == 2,
{
    assert((seq![2u8] + x_only@).skip(1) =~= x_only@);
}

/// A secret key has the public key of its number, and a tweak makes of it the key of the sum of
/// both numbers, or none where that is zero.
pub proof fn secrets_have_keys_and_tweaks(
    secret: SecretKey,
    public: PublicKey,
    tweak: Scalar,
    tweaked: Result<SecretKey, KeyError>,
    digest: [u8; 32],
    signature: [u8; 64],
)
    ensures
        call_ensures(SecretKey::public_key, (&secret,), public) ==> public@ == secp::public_key_of(
            secret@,
        ),
        call_ensures(SecretKey::add_tweak, (&secret, &tweak), tweaked) ==> ({
            let sum = (secp::be_value(secret@) + secp::be_value(tweak@))
                % 0xFFFFFFFFFFFFFFFFFFFFFFFFFFFFFFFEBAAEDCE6AF48A03BBFD25E8CD0364141nat;
            &&& tweaked is Ok <==> sum != 0
            &&& tweaked matches Ok(key) ==> secp::be_value(key@) == sum && key@.len() == 32
            &&& tweaked matches Err(error) ==> error is InvalidTweak
        }),
        call_ensures(SecretKey::sign_schnorr, (&secret, &digest), signature) ==> signature@
            == secp::schnorr_signature(digest@, secret@),
{
    secp::tweaks_are_added(secret@, tweak@);
}

/// What the errors say.
pub proof fn key_errors_say_what_is_wrong(error: KeyError)
    ensures
        error is InvalidSecretKey ==> key_error_text(error)
            == "malformed or out-of-range secret key"@,
        error is InvalidPublicKey ==> key_error_text(error) == "malformed public key"@,
        error is InvalidTweak ==> key_error_text(error) == "bad tweak"@,
        error is OutOfRange ==> key_error_text(error)
            == "the value is not a member of secp256k1 field"@,
{
}

} // verus!
