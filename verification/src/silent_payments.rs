//! The calls into the `silentpayments` crate: the secret that a payment derives its output keys
//! from, the keys themselves, and the address that change goes to.
use crate::address::{Network, SilentPaymentAddress, SilentPaymentAddressView};
use crate::keys::XOnlyPublicKey;
use crate::secp;
use crate::transaction::OutPoint;
use bitcoin::hashes::Hash as HashBytes;
use bitcoin::secp256k1::{PublicKey as RawPublicKey, Scalar as RawScalar, SecretKey as RawSecretKey};
use silentpayments::receiving::{Label, Receiver};
use silentpayments::sending::generate_recipient_pubkeys;
use silentpayments::utils::sending::calculate_partial_secret;
use silentpayments::{Network as RawNetwork, SilentPaymentAddress as RawAddress};
use vstd::prelude::*;

verus! {

/// The secret that the keys of the inputs, each marked as taproot or not, and the outputs that
/// they spend give for deriving output keys: what `calculate_partial_secret` computes, or the
/// text of its error.
pub uninterp spec fn partial_secret(
    keys: Seq<(Seq<u8>, bool)>,
    outpoints: Seq<OutPoint>,
) -> Result<Seq<u8>, Seq<char>>;

/// The output keys that `generate_recipient_pubkeys` derives for each of the recipients, or the
/// texts of the errors that it can fail with.
pub uninterp spec fn recipient_pubkeys(
    recipients: Seq<SilentPaymentAddressView>,
    partial_secret: Seq<u8>,
) -> Result<Map<SilentPaymentAddressView, Seq<Seq<u8>>>, Set<Seq<char>>>;

/// The scalar of a label: what `Label::new` computes from a scan secret and a number.
pub uninterp spec fn label_scalar(scan_secret: Seq<u8>, number: u32) -> Seq<u8>;

/// The change address of a receiver with these keys and this change label: what
/// `Receiver::get_change_address` gives, or the text of the error of `Receiver::new`.
pub uninterp spec fn change_address(
    version: u32,
    scan_pubkey: Seq<u8>,
    spend_pubkey: Seq<u8>,
    label: Seq<u8>,
    network: Network,
) -> Result<SilentPaymentAddressView, Seq<char>>;

pub open spec fn key_pairs(keys: Seq<([u8; 32], bool)>) -> Seq<(Seq<u8>, bool)> {
    Seq::new(keys.len(), |i: int| (keys[i].0@, keys[i].1))
}

pub open spec fn address_views(addresses: Seq<SilentPaymentAddress>) -> Seq<
    SilentPaymentAddressView,
> {
    Seq::new(addresses.len(), |i: int| addresses[i]@)
}

pub open spec fn x_only_views(keys: Seq<XOnlyPublicKey>) -> Seq<Seq<u8>> {
    Seq::new(keys.len(), |i: int| keys[i]@)
}

/// What a list of addresses with their keys holds for each address: the entry that comes last.
pub open spec fn keys_by_address(
    entries: Seq<(SilentPaymentAddress, Vec<XOnlyPublicKey>)>,
) -> Map<SilentPaymentAddressView, Seq<Seq<u8>>>
    decreases entries.len(),
{
    if entries.len() == 0 {
        Map::empty()
    } else {
        keys_by_address(entries.drop_last()).insert(
            entries.last().0@,
            x_only_views(entries.last().1@),
        )
    }
}

/// Calls `calculate_partial_secret`. It fails for lists that are empty, and for keys of which the
/// first two or more add up to zero; what it gives is a key.
///
/// The call does not return where a hash is at or above the curve's order; no input of which
/// that holds is known.
#[verifier::external_body]
pub(crate) fn compute_partial_secret(
    keys: &Vec<([u8; 32], bool)>,
    outpoints: &Vec<OutPoint>,
) -> (res: Result<[u8; 32], String>)
    requires
        forall|i: int| 0 <= i < keys@.len() ==> secp::valid_secret_key((#[trigger] keys@[i]).0@),
    ensures
        match res {
            Ok(secret) => partial_secret(key_pairs(keys@), outpoints@) == Ok::<
                Seq<u8>,
                Seq<char>,
            >(secret@) && secp::valid_secret_key(secret@),
            Err(error) => partial_secret(key_pairs(keys@), outpoints@) == Err::<
                Seq<u8>,
                Seq<char>,
            >(error@),
        },
{
    let keys: Vec<(RawSecretKey, bool)> = keys.iter().map(
        |(key, taproot)| (RawSecretKey::from_slice(key).unwrap(), *taproot),
    ).collect();
    let outpoints: Vec<(String, u32)> = outpoints.iter().map(
        |o| (bitcoin::Txid::from_byte_array(o.txid).to_string(), o.vout),
    ).collect();
    calculate_partial_secret(&keys, &outpoints).map(|secret| secret.secret_bytes()).map_err(
        |error| error.to_string(),
    )
}

/// Calls `generate_recipient_pubkeys`. Where it succeeds, every recipient has at least one key.
/// It walks a hash map: where the keys of two scan keys fail to derive for two reasons, which of
/// the two it reports is open.
#[verifier::external_body]
pub(crate) fn derive_recipient_pubkeys(
    recipients: &Vec<SilentPaymentAddress>,
    partial_secret: &[u8; 32],
) -> (res: Result<Vec<(SilentPaymentAddress, Vec<XOnlyPublicKey>)>, String>)
    requires
        secp::valid_secret_key(partial_secret@),
        recipients@.len() <= u32::MAX,
    ensures
        match recipient_pubkeys(address_views(recipients@), partial_secret@) {
            Ok(keys) => {
                &&& res matches Ok(entries) && keys_by_address(entries@) == keys
                &&& forall|i: int|
                    0 <= i < recipients@.len() ==> keys.contains_key(
                        (#[trigger] recipients@[i])@,
                    ) && keys[recipients@[i]@].len() > 0
            },
            Err(errors) => res matches Err(error) && errors.contains(error@),
        },
{
    let key = |bytes: &[u8; 33]| RawPublicKey::from_slice(bytes).unwrap();
    let raw = |a: &SilentPaymentAddress| RawAddress::new(
        key(&a.scan_pubkey),
        key(&a.spend_pubkey),
        match a.network {
            Network::Mainnet => RawNetwork::Mainnet,
            Network::Testnet => RawNetwork::Testnet,
            Network::Regtest => RawNetwork::Regtest
        },
        a.version
    ).unwrap();
    let secret = RawSecretKey::from_slice(partial_secret).unwrap();
    let keys = generate_recipient_pubkeys(recipients.iter().map(raw).collect(), secret).map_err(|e| e.to_string())?;
    Ok(recipients.iter().map(|a| (*a, keys[&raw(a)].iter().map(|k| XOnlyPublicKey { bytes: k.serialize() }).collect())).collect())
}

/// Calls `Label::new`. What it gives is a scalar.
///
/// The call does not return where a hash is at or above the curve's order; no input of which
/// that holds is known.
#[verifier::external_body]
pub(crate) fn compute_label(scan_secret: &[u8; 32], number: u32) -> (res: [u8; 32])
    requires
        secp::valid_secret_key(scan_secret@),
    ensures
        res@ == label_scalar(scan_secret@, number),
        secp::valid_scalar(res@),
{
    let scan_secret = RawSecretKey::from_slice(scan_secret).unwrap();
    Label::new(scan_secret, number).into_inner().to_be_bytes()
}

/// Calls `Receiver::new` and `Receiver::get_change_address`. The first fails where the label,
/// alone or added to the spend key, gives no point, and for every version but zero. The address
/// is of the version, scan key and network that the receiver has.
#[verifier::external_body]
pub(crate) fn compute_change_address(
    version: u32,
    scan_pubkey: &[u8; 33],
    spend_pubkey: &[u8; 33],
    label: &[u8; 32],
    network: Network,
) -> (res: Result<SilentPaymentAddress, String>)
    requires
        secp::valid_public_key(scan_pubkey@),
        secp::valid_public_key(spend_pubkey@),
        secp::valid_scalar(label@),
    ensures
        match change_address(version, scan_pubkey@, spend_pubkey@, label@, network) {
            Ok(change) => {
                &&& res matches Ok(address) && address@ == change
                &&& change.version == version
                &&& change.scan_pubkey == scan_pubkey@
                &&& change.network == network
            },
            Err(text) => res matches Err(error) && error@ == text,
        },
{
    let raw_network = match network {
        Network::Mainnet => RawNetwork::Mainnet,
        Network::Testnet => RawNetwork::Testnet,
        Network::Regtest => RawNetwork::Regtest,
    };
    let key = |bytes: &[u8; 33]| RawPublicKey::from_slice(bytes).unwrap();
    let label = Label::from(RawScalar::from_be_bytes(*label).unwrap());
    let change = Receiver::new(version, key(scan_pubkey), key(spend_pubkey), label, raw_network)
        .map_err(|error| error.to_string())?.get_change_address();
    Ok(SilentPaymentAddress {
        version: change.get_version(), scan_pubkey: change.get_scan_key().serialize(),
        spend_pubkey: change.get_spend_key().serialize(), network,
    })
}

/// The keys of an address are those that were put down last; those of every other stay.
pub proof fn later_keys_replace_earlier(
    entries: Seq<(SilentPaymentAddress, Vec<XOnlyPublicKey>)>,
    address: SilentPaymentAddress,
    keys: Vec<XOnlyPublicKey>,
    other: SilentPaymentAddressView,
)
    ensures
        keys_by_address(entries.push((address, keys))).contains_key(address@),
        keys_by_address(entries.push((address, keys)))[address@].len() == keys@.len(),
        forall|i: int|
            0 <= i < keys@.len() ==> #[trigger] keys_by_address(
                entries.push((address, keys)),
            )[address@][i] == keys@[i]@,
        other != address@ ==> (keys_by_address(entries.push((address, keys))).contains_key(other)
            <==> keys_by_address(entries).contains_key(other)),
        other != address@ && keys_by_address(entries).contains_key(other) ==> keys_by_address(
            entries.push((address, keys)),
        )[other] == keys_by_address(entries)[other],
        !keys_by_address(seq![]).contains_key(other),
{
    assert(entries.push((address, keys)).drop_last() =~= entries);
}

/// Lists seen through their views keep their order and what they hold.
pub proof fn list_views_keep_order(
    pairs: Seq<([u8; 32], bool)>,
    addresses: Seq<SilentPaymentAddress>,
    keys: Seq<XOnlyPublicKey>,
)
    ensures
        key_pairs(pairs).len() == pairs.len(),
        forall|i: int| 0 <= i < pairs.len() ==> #[trigger] key_pairs(pairs)[i] == (
            pairs[i].0@,
            pairs[i].1,
        ),
        address_views(addresses).len() == addresses.len(),
        forall|i: int| 0 <= i < addresses.len() ==> #[trigger] address_views(addresses)[i]
            == addresses[i]@,
        x_only_views(keys).len() == keys.len(),
        forall|i: int| 0 <= i < keys.len() ==> #[trigger] x_only_views(keys)[i] == keys[i]@,
{
}

} // verus!
