//! Networks, and the addresses that payments go to.
use crate::secp;
use bitcoin::address::NetworkUnchecked;
use std::str::FromStr;
use vstd::prelude::*;
use vstd::string::*;

verus! {

/// The networks that silent payment addresses tell apart. Signet counts as `Testnet`.
#[derive(Debug, Clone, Copy, PartialEq, Eq, Hash, Structural)]
pub enum Network {
    Mainnet,
    Testnet,
    Regtest,
}

/// The networks that a node can run on.
#[derive(Debug, Clone, Copy, PartialEq, Eq, Hash, Structural)]
pub enum BitcoinNetwork {
    Bitcoin,
    Testnet,
    Testnet4,
    Signet,
    Regtest,
}

/// A silent payment address: the keys that a sender derives output keys from.
#[derive(Debug, Clone, Copy, PartialEq, Eq)]
pub struct SilentPaymentAddress {
    pub(crate) version: u8,
    pub(crate) scan_pubkey: [u8; 33],
    pub(crate) spend_pubkey: [u8; 33],
    pub(crate) network: Network,
}

/// A silent payment address, its keys as byte sequences.
#[verifier::ext_equal]
pub struct SilentPaymentAddressView {
    pub version: u8,
    pub scan_pubkey: Seq<u8>,
    pub spend_pubkey: Seq<u8>,
    pub network: Network,
}

impl SilentPaymentAddressView {
    /// Version zero is the only one, and both keys are points.
    pub open spec fn valid(self) -> bool {
        &&& self.version == 0
        &&& secp::valid_public_key(self.scan_pubkey)
        &&& secp::valid_public_key(self.spend_pubkey)
    }
}

impl View for SilentPaymentAddress {
    type V = SilentPaymentAddressView;

    closed spec fn view(&self) -> SilentPaymentAddressView {
        SilentPaymentAddressView {
            version: self.version,
            scan_pubkey: self.scan_pubkey@,
            spend_pubkey: self.spend_pubkey@,
            network: self.network,
        }
    }
}

/// The address that text encodes: what `SilentPaymentAddress::try_from` of the `silentpayments`
/// crate reads from it.
pub uninterp spec fn silent_payment_address(text: Seq<char>) -> Option<SilentPaymentAddressView>;

/// Calls `SilentPaymentAddress::try_from` of the `silentpayments` crate. What it takes is of
/// version zero, with two points of the curve.
#[verifier::external_body]
fn decode_silent_payment_address(text: &str) -> (res: Option<SilentPaymentAddress>)
    ensures
        res is Some <==> silent_payment_address(text@) is Some,
        res matches Some(address) ==> silent_payment_address(text@) == Some(address@)
            && address@.valid(),
{
    let address = silentpayments::SilentPaymentAddress::try_from(text).ok()?;
    let network = match address.get_network() {
        silentpayments::Network::Mainnet => Network::Mainnet,
        silentpayments::Network::Testnet => Network::Testnet,
        silentpayments::Network::Regtest => Network::Regtest,
    };
    Some(SilentPaymentAddress {
        version: address.get_version(),
        scan_pubkey: address.get_scan_key().serialize(),
        spend_pubkey: address.get_spend_key().serialize(),
        network,
    })
}

impl SilentPaymentAddress {
    /// Holds of every address that code can come by.
    #[verifier::type_invariant]
    pub open spec fn well_formed(self) -> bool {
        self@.valid()
    }

    /// Reads an address; `None` where the text is not one.
    pub fn parse(text: &str) -> (res: Option<Self>)
        ensures
            res is Some <==> silent_payment_address(text@) is Some,
            res matches Some(address) ==> silent_payment_address(text@) == Some(address@),
    {
        decode_silent_payment_address(text)
    }

    /// The address of two keys that other calls have found to be points.
    pub(crate) fn from_keys(
        scan_pubkey: [u8; 33],
        spend_pubkey: [u8; 33],
        network: Network,
    ) -> (res: Self)
        requires
            secp::valid_public_key(scan_pubkey@),
            secp::valid_public_key(spend_pubkey@),
        ensures
            res@ == (SilentPaymentAddressView {
                version: 0,
                scan_pubkey: scan_pubkey@,
                spend_pubkey: spend_pubkey@,
                network,
            }),
    {
        SilentPaymentAddress { version: 0, scan_pubkey, spend_pubkey, network }
    }

    pub fn get_network(&self) -> (res: Network)
        ensures
            res == self@.network,
    {
        self.network
    }

    /// Whether both are the same address.
    pub fn same(&self, other: &SilentPaymentAddress) -> (res: bool)
        ensures
            res == (self@ == other@),
    {
        if self.version != other.version || self.network != other.network {
            return false;
        }
        let mut i: usize = 0;
        while i < 33
            invariant
                i <= 33,
                forall|j: int| 0 <= j < i ==> self.scan_pubkey@[j] == other.scan_pubkey@[j],
                forall|j: int| 0 <= j < i ==> self.spend_pubkey@[j] == other.spend_pubkey@[j],
            decreases 33 - i,
        {
            if self.scan_pubkey[i] != other.scan_pubkey[i] || self.spend_pubkey[i]
                != other.spend_pubkey[i] {
                assert(self@.scan_pubkey[i as int] != other@.scan_pubkey[i as int]
                    || self@.spend_pubkey[i as int] != other@.spend_pubkey[i as int]);
                return false;
            }
            i += 1;
        }
        assert(self@ =~= other@);
        true
    }
}

/// Why text is no bitcoin address, in the words of `Address::from_str`; `None` where it is one.
pub uninterp spec fn address_error(text: Seq<char>) -> Option<Seq<char>>;

/// Whether an address can be paid on a network: what `Address::require_network` decides.
pub uninterp spec fn address_on_network(text: Seq<char>, network: BitcoinNetwork) -> bool;

/// The script that pays an address: what `Address::script_pubkey` builds.
pub uninterp spec fn address_script(text: Seq<char>) -> Seq<u8>;

/// The pay-to-taproot address of an internal key without scripts: what `Address::p2tr` builds.
pub uninterp spec fn taproot_address(internal_key: Seq<u8>, network: BitcoinNetwork) -> Seq<char>;

/// Calls `Address::from_str`. The error comes back as its text.
#[verifier::external_body]
fn check_address(text: &str) -> (res: Result<(), String>)
    ensures
        res is Ok <==> address_error(text@) is None,
        res matches Err(error) ==> address_error(text@) == Some(error@),
{
    bitcoin::Address::from_str(text).map(|_| ()).map_err(|error| error.to_string())
}

/// Calls `Address::require_network`. The main network has prefixes of its own: an address that is
/// valid for it is valid for no other, and one that is valid for another is not for it.
#[verifier::external_body]
fn check_network(text: &str, network: BitcoinNetwork) -> (res: bool)
    requires
        address_error(text@) is None,
    ensures
        res == address_on_network(text@, network),
        res && network == BitcoinNetwork::Bitcoin ==> forall|other: BitcoinNetwork|
            other != BitcoinNetwork::Bitcoin ==> !#[trigger] address_on_network(text@, other),
        res && network != BitcoinNetwork::Bitcoin ==> !address_on_network(
            text@,
            BitcoinNetwork::Bitcoin,
        ),
{
    let address: bitcoin::Address<NetworkUnchecked> = bitcoin::Address::from_str(text).unwrap();
    let network = match network {
        BitcoinNetwork::Bitcoin => bitcoin::Network::Bitcoin,
        BitcoinNetwork::Testnet => bitcoin::Network::Testnet,
        BitcoinNetwork::Testnet4 => bitcoin::Network::Testnet4,
        BitcoinNetwork::Signet => bitcoin::Network::Signet,
        BitcoinNetwork::Regtest => bitcoin::Network::Regtest,
    };
    address.require_network(network).is_ok()
}

/// Calls `Address::script_pubkey`.
#[verifier::external_body]
fn script_of_address(text: &str) -> (res: Vec<u8>)
    requires
        address_error(text@) is None,
    ensures
        res@ == address_script(text@),
{
    bitcoin::Address::from_str(text).unwrap().assume_checked().script_pubkey().into_bytes()
}

/// Calls `Address::p2tr` with no script tree.
///
/// The call does not return where the hash of the key is at or above the curve's order; no key
/// of which that holds is known.
#[verifier::external_body]
pub(crate) fn p2tr_address(internal_key: &[u8; 32], network: BitcoinNetwork) -> (res: String)
    requires
        secp::valid_x_only_key(internal_key@),
    ensures
        res@ == taproot_address(internal_key@, network),
{
    let key = bitcoin::XOnlyPublicKey::from_slice(internal_key).unwrap();
    let network = match network {
        BitcoinNetwork::Bitcoin => bitcoin::Network::Bitcoin,
        BitcoinNetwork::Testnet => bitcoin::Network::Testnet,
        BitcoinNetwork::Testnet4 => bitcoin::Network::Testnet4,
        BitcoinNetwork::Signet => bitcoin::Network::Signet,
        BitcoinNetwork::Regtest => bitcoin::Network::Regtest,
    };
    let secp = bitcoin::secp256k1::Secp256k1::verification_only();
    bitcoin::Address::p2tr(&secp, key, None, network).to_string()
}

/// A bitcoin address, of whichever network, as the text that it was read from.
#[derive(Debug)]
pub struct Address {
    text: String,
}

impl View for Address {
    type V = Seq<char>;

    closed spec fn view(&self) -> Seq<char> {
        self.text@
    }
}

impl Address {
    /// Holds of every address that code can come by.
    #[verifier::type_invariant]
    pub open spec fn well_formed(self) -> bool {
        address_error(self@) is None
    }

    /// Reads an address; the error says why the text is not one.
    pub fn parse(text: &str) -> (res: Result<Self, String>)
        ensures
            res is Ok <==> address_error(text@) is None,
            res matches Ok(address) ==> address@ == text@,
            res matches Err(error) ==> address_error(text@) == Some(error@),
    {
        match check_address(text) {
            Ok(()) => Ok(Address { text: text.to_owned() }),
            Err(error) => Err(error),
        }
    }

    /// Whether the address can be paid on `network`. One of the main network can be paid on no
    /// other.
    pub fn is_valid_for_network(&self, network: BitcoinNetwork) -> (res: bool)
        ensures
            res == address_on_network(self@, network),
            res && network == BitcoinNetwork::Bitcoin ==> forall|other: BitcoinNetwork|
                other != BitcoinNetwork::Bitcoin ==> !#[trigger] address_on_network(self@, other),
            res && network != BitcoinNetwork::Bitcoin ==> !address_on_network(
                self@,
                BitcoinNetwork::Bitcoin,
            ),
    {
        proof {
            use_type_invariant(self);
        }
        check_network(self.text.as_str(), network)
    }

    pub fn script_pubkey(&self) -> (res: Vec<u8>)
        ensures
            res@ == address_script(self@),
    {
        proof {
            use_type_invariant(self);
        }
        script_of_address(self.text.as_str())
    }
}

/// Addresses are read as what they are: a silent payment address, or a bitcoin address as its
/// text; text that is neither is refused.
pub proof fn addresses_are_what_was_read(
    text: &str,
    silent: Option<SilentPaymentAddress>,
    plain: Result<Address, String>,
)
    ensures
        call_ensures(SilentPaymentAddress::parse, (text,), silent) ==> match silent {
            Some(address) => silent_payment_address(text@) == Some(address@),
            None => silent_payment_address(text@) is None,
        },
        call_ensures(Address::parse, (text,), plain) ==> match plain {
            Ok(address) => address_error(text@) is None && address@ == text@,
            Err(error) => address_error(text@) == Some(error@),
        },
{
}

/// Two silent payment addresses are the same where all that they hold is, and a bitcoin address
/// is valid for the networks of its text and paid by its script.
pub proof fn addresses_show_what_they_hold(
    address: SilentPaymentAddress,
    network: Network,
    other: SilentPaymentAddress,
    same: bool,
    plain: Address,
    node_network: BitcoinNetwork,
    on_network: bool,
    script: Vec<u8>,
)
    ensures
        call_ensures(SilentPaymentAddress::get_network, (&address,), network) ==> network
            == address@.network,
        call_ensures(SilentPaymentAddress::same, (&address, &other), same) ==> (same
            <==> address@.version == other@.version && address@.scan_pubkey == other@.scan_pubkey
            && address@.spend_pubkey == other@.spend_pubkey && address@.network == other@.network),
        call_ensures(Address::is_valid_for_network, (&plain, node_network), on_network)
            ==> on_network == address_on_network(plain@, node_network),
        call_ensures(Address::script_pubkey, (&plain,), script) ==> script@ == address_script(
            plain@,
        ),
{
}

} // verus!
