//! The secp256k1 curve: what makes bytes a key, and the calls into the `secp256k1` crate.
use bitcoin::secp256k1;
use vstd::prelude::*;

verus! {

/// The number that big-endian bytes spell.
pub open spec fn be_value(bytes: Seq<u8>) -> nat
    decreases bytes.len(),
{
    if bytes.len() == 0 {
        0
    } else {
        be_value(bytes.drop_last()) * 256 + bytes.last() as nat
    }
}

/// The order of the group that secp256k1 generates.
pub open spec fn curve_order() -> nat {
    0xFFFFFFFFFFFFFFFFFFFFFFFFFFFFFFFEBAAEDCE6AF48A03BBFD25E8CD0364141nat
}

/// The prime of the field that secp256k1 is defined over.
pub open spec fn field_prime() -> nat {
    0xFFFFFFFFFFFFFFFFFFFFFFFFFFFFFFFFFFFFFFFFFFFFFFFFFFFFFFFEFFFFFC2Fnat
}

/// The curve's equation, `y^2 = x^3 + 7`.
pub open spec fn on_curve(x: nat, y: nat) -> bool {
    (y * y) % field_prime() == (x * x * x + 7) % field_prime()
}

/// Whether some point of the curve has this x coordinate.
pub open spec fn is_curve_x(x: nat) -> bool {
    x < field_prime() && exists|y: nat| y < field_prime() && on_curve(x, y)
}

/// 32 bytes that spell a number from one up to, but not at, the order.
pub open spec fn valid_secret_key(bytes: Seq<u8>) -> bool {
    bytes.len() == 32 && 0 < be_value(bytes) < curve_order()
}

/// 32 bytes that spell a number below the order.
pub open spec fn valid_scalar(bytes: Seq<u8>) -> bool {
    bytes.len() == 32 && be_value(bytes) < curve_order()
}

/// 32 bytes that spell the x coordinate of a point.
pub open spec fn valid_x_only_key(bytes: Seq<u8>) -> bool {
    bytes.len() == 32 && is_curve_x(be_value(bytes))
}

/// A compressed point: a byte for the parity of y, two or three, then the x coordinate.
pub open spec fn valid_public_key(bytes: Seq<u8>) -> bool {
    bytes.len() == 33 && (bytes[0] == 2 || bytes[0] == 3) && valid_x_only_key(bytes.skip(1))
}

/// The secret key that adding a tweak modulo the order gives, as a number.
pub open spec fn tweaked_value(secret: Seq<u8>, tweak: Seq<u8>) -> nat {
    (be_value(secret) + be_value(tweak)) % curve_order()
}

/// The `len` lowest bytes of a number, big-endian.
pub open spec fn be_bytes(value: nat, len: nat) -> Seq<u8>
    decreases len,
{
    if len == 0 {
        seq![]
    } else {
        be_bytes(value / 256, (len - 1) as nat).push((value % 256) as u8)
    }
}

/// The bytes of the secret key that adding a tweak gives.
pub open spec fn tweaked_key(secret: Seq<u8>, tweak: Seq<u8>) -> Seq<u8> {
    be_bytes(tweaked_value(secret, tweak), 32)
}

/// Bytes are the bytes of the number that they spell.
pub proof fn be_bytes_of_value(bytes: Seq<u8>)
    ensures
        be_bytes(be_value(bytes), bytes.len()) == bytes,
    decreases bytes.len(),
{
    if bytes.len() > 0 {
        let high = be_value(bytes.drop_last());
        assert(be_value(bytes) == high * 256 + bytes.last());
        assert(be_value(bytes) / 256 == high);
        be_bytes_of_value(bytes.drop_last());
        assert(bytes =~= bytes.drop_last().push(bytes.last()));
    } else {
        assert(bytes =~= seq![]);
    }
}

/// The compressed public key of a secret key: what `PublicKey::from_secret_key` computes.
pub uninterp spec fn public_key_of(secret: Seq<u8>) -> Seq<u8>;

/// The signature that `sign_schnorr_no_aux_rand` makes of a digest with a secret key.
pub uninterp spec fn schnorr_signature(digest: Seq<u8>, secret: Seq<u8>) -> Seq<u8>;

/// The error type of the `secp256k1` crate.
#[verifier::external_type_specification]
#[verifier::external_body]
pub struct ExSecpError(secp256k1::Error);

/// The error of the `secp256k1` crate for a number that is no scalar.
#[verifier::external_type_specification]
#[verifier::external_body]
pub struct ExScalarError(secp256k1::scalar::OutOfRangeError);

/// Calls `SecretKey::from_slice`, which takes 32 bytes that spell a number from one up to, but
/// not at, the curve's order, and refuses all else.
#[verifier::external_body]
pub(crate) fn parse_secret_key(data: &[u8]) -> (res: Result<[u8; 32], secp256k1::Error>)
    ensures
        res matches Ok(key) ==> valid_secret_key(data@) && key@ == data@,
        res is Err ==> !valid_secret_key(data@),
{
    secp256k1::SecretKey::from_slice(data).map(|key| key.secret_bytes())
}

/// Calls `XOnlyPublicKey::from_slice`, which takes 32 bytes that spell the x coordinate of a
/// point of the curve, and refuses all else.
#[verifier::external_body]
pub(crate) fn parse_x_only_key(data: &[u8]) -> (res: Result<[u8; 32], secp256k1::Error>)
    ensures
        res matches Ok(key) ==> valid_x_only_key(data@) && key@ == data@,
        res is Err ==> !valid_x_only_key(data@),
{
    secp256k1::XOnlyPublicKey::from_slice(data).map(|key| key.serialize())
}

/// Calls `Scalar::from_be_bytes`, which takes big-endian bytes of a number below the curve's
/// order, and refuses all else.
#[verifier::external_body]
pub(crate) fn parse_scalar(value: [u8; 32]) -> (res: Result<
    [u8; 32],
    secp256k1::scalar::OutOfRangeError,
>)
    ensures
        res matches Ok(scalar) ==> valid_scalar(value@) && scalar@ == value@,
        res is Err ==> !valid_scalar(value@),
{
    secp256k1::Scalar::from_be_bytes(value).map(|scalar| scalar.to_be_bytes())
}

/// Calls `PublicKey::from_secret_key` and serializes the point in its compressed form.
#[verifier::external_body]
pub(crate) fn derive_public_key(secret: &[u8; 32]) -> (res: [u8; 33])
    requires
        valid_secret_key(secret@),
    ensures
        res@ == public_key_of(secret@),
        valid_public_key(res@),
{
    let secret = secp256k1::SecretKey::from_slice(secret).unwrap();
    secp256k1::PublicKey::from_secret_key(&secp256k1::Secp256k1::signing_only(), &secret).serialize()
}

/// Calls `SecretKey::add_tweak`, which adds modulo the curve's order and refuses a sum of zero.
#[verifier::external_body]
pub(crate) fn add_tweak(secret: &[u8; 32], tweak: &[u8; 32]) -> (res: Result<
    [u8; 32],
    secp256k1::Error,
>)
    requires
        valid_secret_key(secret@),
        valid_scalar(tweak@),
    ensures
        res matches Ok(key) ==> valid_secret_key(key@) && be_value(key@) == tweaked_value(
            secret@,
            tweak@,
        ),
        res is Err <==> tweaked_value(secret@, tweak@) == 0,
{
    let secret = secp256k1::SecretKey::from_slice(secret).unwrap();
    let tweak = secp256k1::Scalar::from_be_bytes(*tweak).unwrap();
    secret.add_tweak(&tweak).map(|key| key.secret_bytes())
}

/// Calls `SecretKey::new` with the operating system's random numbers. Which key comes out rests
/// on chance; that it is a valid one does not.
#[verifier::external_body]
pub(crate) fn random_secret_key() -> (res: [u8; 32])
    ensures
        valid_secret_key(res@),
{
    secp256k1::SecretKey::new(&mut secp256k1::rand::rngs::OsRng).secret_bytes()
}

/// Calls `Secp256k1::generate_keypair` with the thread's random numbers. Which secret key comes
/// out rests on chance; the public key is the secret key's.
#[verifier::external_body]
pub(crate) fn random_keypair() -> (res: ([u8; 32], [u8; 33]))
    ensures
        valid_secret_key(res.0@),
        valid_public_key(res.1@),
        res.1@ == public_key_of(res.0@),
{
    let mut rng = secp256k1::rand::thread_rng();
    let (secret, public) = secp256k1::Secp256k1::new().generate_keypair(&mut rng);
    (secret.secret_bytes(), public.serialize())
}

/// Calls `sign_schnorr_no_aux_rand`, which signs a digest without random numbers.
#[verifier::external_body]
pub(crate) fn sign_schnorr(digest: &[u8; 32], secret: &[u8; 32]) -> (res: [u8; 64])
    requires
        valid_secret_key(secret@),
    ensures
        res@ == schnorr_signature(digest@, secret@),
{
    let secp = secp256k1::Secp256k1::signing_only();
    let keypair = secp256k1::Keypair::from_seckey_slice(&secp, secret).unwrap();
    let message = secp256k1::Message::from_digest(*digest);
    secp.sign_schnorr_no_aux_rand(&message, &keypair).serialize()
}

/// The first number that does not fit into so many bytes.
pub open spec fn bytes_limit(len: nat) -> nat
    decreases len,
{
    if len == 0 {
        1
    } else {
        256 * bytes_limit((len - 1) as nat)
    }
}

/// One more byte at the end counts as many units as it spells, and what stands before it 256
/// times as much as before.
pub proof fn last_byte_counts_units(bytes: Seq<u8>, last: u8)
    ensures
        be_value(bytes.push(last)) == 256 * be_value(bytes) + last,
        be_value(seq![]) == 0,
{
    assert(bytes.push(last).drop_last() =~= bytes);
}

/// The bytes of a number that fits spell it.
pub proof fn value_of_be_bytes(value: nat, len: nat)
    requires
        value < bytes_limit(len),
    ensures
        be_bytes(value, len).len() == len,
        be_value(be_bytes(value, len)) == value,
    decreases len,
{
    if len > 0 {
        value_of_be_bytes(value / 256, (len - 1) as nat);
        last_byte_counts_units(be_bytes(value / 256, (len - 1) as nat), (value % 256) as u8);
    }
}

/// A tweak is added to a secret modulo the order of the curve, into 32 bytes, and the sum is a key
/// exactly where it is not zero.
pub proof fn tweaks_are_added(secret: Seq<u8>, tweak: Seq<u8>)
    ensures
        tweaked_key(secret, tweak).len() == 32,
        be_value(tweaked_key(secret, tweak)) == (be_value(secret) + be_value(tweak))
            % 0xFFFFFFFFFFFFFFFFFFFFFFFFFFFFFFFEBAAEDCE6AF48A03BBFD25E8CD0364141nat,
        valid_secret_key(tweaked_key(secret, tweak)) <==> tweaked_value(secret, tweak) != 0,
        tweaked_value(secret, tweak) == be_value(tweaked_key(secret, tweak)),
{
    reveal_with_fuel(bytes_limit, 33);
    assert(bytes_limit(32)
        == 0x10000000000000000000000000000000000000000000000000000000000000000nat);
    value_of_be_bytes(tweaked_value(secret, tweak), 32);
}

/// Which bytes are keys: their number, and the range of the number that they spell.
pub proof fn keys_are_numbers_in_range(bytes: Seq<u8>)
    ensures
        valid_secret_key(bytes) <==> bytes.len() == 32 && 0 < be_value(bytes)
            < 0xFFFFFFFFFFFFFFFFFFFFFFFFFFFFFFFEBAAEDCE6AF48A03BBFD25E8CD0364141nat,
        valid_scalar(bytes) <==> bytes.len() == 32 && be_value(bytes)
            < 0xFFFFFFFFFFFFFFFFFFFFFFFFFFFFFFFEBAAEDCE6AF48A03BBFD25E8CD0364141nat,
        valid_x_only_key(bytes) <==> {
            let prime = 0xFFFFFFFFFFFFFFFFFFFFFFFFFFFFFFFFFFFFFFFFFFFFFFFFFFFFFFFEFFFFFC2Fnat;
            let x = be_value(bytes);
            &&& bytes.len() == 32
            &&& x < prime
            &&& exists|y: nat|
                y < prime && #[trigger] on_curve(x, y) && (y * y) % prime == (x * x * x + 7) % prime
        },
        valid_x_only_key(bytes) <==> valid_public_key(seq![2u8] + bytes),
        valid_x_only_key(bytes) <==> valid_public_key(seq![3u8] + bytes),
{
    assert((seq![2u8] + bytes).skip(1) =~= bytes);
    assert((seq![3u8] + bytes).skip(1) =~= bytes);
}

} // verus!
