//! Sending: whom a payment goes to, and the transaction that makes it.
use crate::address;
use crate::address::{Address, BitcoinNetwork, Network, SilentPaymentAddress, SilentPaymentAddressView};
use crate::coins;
use crate::coins::{random_draw, SpendableCoin, SpendableView};
use crate::keys;
use crate::keys::{KeyError, SecretKey, XOnlyPublicKey};
use crate::secp;
use crate::silent_payments;
use crate::silent_payments::{compute_partial_secret, derive_recipient_pubkeys};
use crate::text;
use crate::transaction;
use crate::transaction::{
    sighash, FeeRate, OutPoint, Sats, Transaction, TransactionView, TxIn, TxInView, TxOut, TxOutView,
};
use vstd::prelude::*;
use vstd::string::*;

verus! {

/// Why a payment is not made. The errors of outside crates come as their texts.
#[derive(Debug)]
pub enum SendError {
    WatchOnly,
    NoSpendableCoins,
    DustAmount { amount: Sats, dust: Sats },
    InsufficientFunds { needed: Sats, available: Sats },
    NetworkMismatch,
    InvalidRecipient(String),
    OutputDerivation,
    SilentPayments(String),
    Secp(KeyError),
    Sighash(String),
}

/// Why a payment is not made, the texts as sequences.
pub enum SendErrorView {
    WatchOnly,
    NoSpendableCoins,
    DustAmount { amount: u64, dust: u64 },
    InsufficientFunds { needed: u64, available: u64 },
    NetworkMismatch,
    InvalidRecipient(Seq<char>),
    OutputDerivation,
    SilentPayments(Seq<char>),
    Secp(KeyError),
    Sighash(Seq<char>),
}

impl View for SendError {
    type V = SendErrorView;

    open spec fn view(&self) -> SendErrorView {
        match *self {
            SendError::WatchOnly => SendErrorView::WatchOnly,
            SendError::NoSpendableCoins => SendErrorView::NoSpendableCoins,
            SendError::DustAmount { amount, dust } => SendErrorView::DustAmount {
                amount: amount.sat,
                dust: dust.sat,
            },
            SendError::InsufficientFunds { needed, available } => {
                SendErrorView::InsufficientFunds { needed: needed.sat, available: available.sat }
            },
            SendError::NetworkMismatch => SendErrorView::NetworkMismatch,
            SendError::InvalidRecipient(error) => SendErrorView::InvalidRecipient(error@),
            SendError::OutputDerivation => SendErrorView::OutputDerivation,
            SendError::SilentPayments(error) => SendErrorView::SilentPayments(error@),
            SendError::Secp(error) => SendErrorView::Secp(error),
            SendError::Sighash(error) => SendErrorView::Sighash(error@),
        }
    }
}

impl SendErrorView {
    /// What the error says to its reader.
    pub open spec fn text(self) -> Seq<char> {
        match self {
            SendErrorView::WatchOnly => "wallet is watch-only: no spend secret to sign with"@,
            SendErrorView::NoSpendableCoins => "no spendable coins"@,
            SendErrorView::DustAmount { amount, dust } => "amount "@ + text::decimal_text(
                amount as nat,
            ) + " sats is below the dust limit of "@ + text::decimal_text(dust as nat) + " sats"@,
            SendErrorView::InsufficientFunds { needed, available } => {
                "insufficient funds: need "@ + text::decimal_text(needed as nat) + " sats, have "@
                    + text::decimal_text(available as nat) + " sats"@
            },
            SendErrorView::NetworkMismatch => "recipient address is for a different network"@,
            SendErrorView::InvalidRecipient(error) => "invalid recipient address: "@ + error,
            SendErrorView::OutputDerivation => "recipient output key was not derived"@,
            SendErrorView::SilentPayments(error) => "silent payments error: "@ + error,
            SendErrorView::Secp(error) => "secp256k1 error: "@ + keys::key_error_text(error),
            SendErrorView::Sighash(error) => "sighash error: "@ + error,
        }
    }

    /// Whether the sender can mend what is wrong: all errors but those that come from deriving
    /// and signing.
    pub open spec fn is_user_error(self) -> bool {
        match self {
            SendErrorView::OutputDerivation => false,
            SendErrorView::SilentPayments(_) => false,
            SendErrorView::Secp(_) => false,
            SendErrorView::Sighash(_) => false,
            _ => true,
        }
    }
}

impl SendError {
    /// What the error says to its reader.
    pub fn message(&self) -> (res: String)
        ensures
            res@ == self@.text(),
    {
        match self {
            SendError::WatchOnly => {
                "wallet is watch-only: no spend secret to sign with".to_owned()
            },
            SendError::NoSpendableCoins => "no spendable coins".to_owned(),
            SendError::DustAmount { amount, dust } => {
                let mut text = text::joined("amount ", text::decimal(amount.to_sat()).as_str());
                text.append(" sats is below the dust limit of ");
                text.append(text::decimal(dust.to_sat()).as_str());
                text.append(" sats");
                text
            },
            SendError::InsufficientFunds { needed, available } => {
                let mut text = text::joined(
                    "insufficient funds: need ",
                    text::decimal(needed.to_sat()).as_str(),
                );
                text.append(" sats, have ");
                text.append(text::decimal(available.to_sat()).as_str());
                text.append(" sats");
                text
            },
            SendError::NetworkMismatch => {
                "recipient address is for a different network".to_owned()
            },
            SendError::InvalidRecipient(error) => {
                text::joined("invalid recipient address: ", error.as_str())
            },
            SendError::OutputDerivation => "recipient output key was not derived".to_owned(),
            SendError::SilentPayments(error) => {
                text::joined("silent payments error: ", error.as_str())
            },
            SendError::Secp(error) => text::joined("secp256k1 error: ", error.message().as_str()),
            SendError::Sighash(error) => text::joined("sighash error: ", error.as_str()),
        }
    }

    /// Whether the sender can mend what is wrong.
    pub fn is_user_error(&self) -> (res: bool)
        ensures
            res == self@.is_user_error(),
    {
        match self {
            SendError::WatchOnly => true,
            SendError::NoSpendableCoins => true,
            SendError::DustAmount { .. } => true,
            SendError::InsufficientFunds { .. } => true,
            SendError::NetworkMismatch => true,
            SendError::InvalidRecipient(_) => true,
            SendError::OutputDerivation => false,
            SendError::SilentPayments(_) => false,
            SendError::Secp(_) => false,
            SendError::Sighash(_) => false,
        }
    }
}

/// Whom a payment goes to.
#[derive(Debug)]
pub enum Recipient {
    SilentPayment(SilentPaymentAddress),
    Address(Address),
}

/// Whom a payment goes to, a bitcoin address as its text.
pub enum RecipientView {
    SilentPayment(SilentPaymentAddressView),
    Address(Seq<char>),
}

impl View for Recipient {
    type V = RecipientView;

    open spec fn view(&self) -> RecipientView {
        match *self {
            Recipient::SilentPayment(address) => RecipientView::SilentPayment(address@),
            Recipient::Address(address) => RecipientView::Address(address@),
        }
    }
}

/// The node's network that a wallet network stands for in bitcoin addresses.
pub open spec fn node_network(network: Network) -> BitcoinNetwork {
    match network {
        Network::Mainnet => BitcoinNetwork::Bitcoin,
        Network::Testnet => BitcoinNetwork::Testnet,
        Network::Regtest => BitcoinNetwork::Regtest,
    }
}

pub fn bitcoin_network(network: Network) -> (res: BitcoinNetwork)
    ensures
        res == node_network(network),
{
    match network {
        Network::Mainnet => BitcoinNetwork::Bitcoin,
        Network::Testnet => BitcoinNetwork::Testnet,
        Network::Regtest => BitcoinNetwork::Regtest,
    }
}

/// Whom text names to a wallet on `network`. A silent payment address comes first; what is none
/// is read as a bitcoin address.
pub open spec fn parsed_recipient(text: Seq<char>, network: Network) -> Result<
    RecipientView,
    SendErrorView,
> {
    match address::silent_payment_address(text) {
        Some(silent) => silent_recipient(silent, network),
        None => match address::address_error(text) {
            Some(error) => Err(SendErrorView::InvalidRecipient(error)),
            None => plain_recipient(
                text,
                address::address_on_network(text, node_network(network)),
            ),
        },
    }
}

/// A silent payment address is paid on its own network only.
pub open spec fn silent_recipient(silent: SilentPaymentAddressView, network: Network) -> Result<
    RecipientView,
    SendErrorView,
> {
    if silent.network == network {
        Ok(RecipientView::SilentPayment(silent))
    } else {
        Err(SendErrorView::NetworkMismatch)
    }
}

/// A bitcoin address is paid on the networks that it is valid for.
pub open spec fn plain_recipient(address: Seq<char>, on_network: bool) -> Result<
    RecipientView,
    SendErrorView,
> {
    if on_network {
        Ok(RecipientView::Address(address))
    } else {
        Err(SendErrorView::NetworkMismatch)
    }
}

/// A result with what it carries in its place seen through the view.
pub open spec fn recipient_outcome(res: Result<Recipient, SendError>) -> Result<
    RecipientView,
    SendErrorView,
> {
    match res {
        Ok(recipient) => Ok(recipient@),
        Err(error) => Err(error@),
    }
}

impl Recipient {
    /// Reads whom to pay from text, for a wallet on `network`. Whom the main network knows, no
    /// other does.
    pub fn parse(s: &str, network: Network) -> (res: Result<Self, SendError>)
        ensures
            recipient_outcome(res) == parsed_recipient(s@, network),
            network == Network::Mainnet && res is Ok ==> forall|other: Network|
                other != Network::Mainnet ==> #[trigger] parsed_recipient(s@, other) == Err::<
                    RecipientView,
                    SendErrorView,
                >(SendErrorView::NetworkMismatch),
            network != Network::Mainnet && res is Ok ==> parsed_recipient(s@, Network::Mainnet)
                == Err::<RecipientView, SendErrorView>(SendErrorView::NetworkMismatch),
    {
        if let Some(silent) = SilentPaymentAddress::parse(s) {
            return Self::from_silent_payment(silent, network);
        }
        match Address::parse(s) {
            Ok(address) => {
                let on_network = address.is_valid_for_network(bitcoin_network(network));
                Self::from_address(address, on_network)
            },
            Err(error) => Err(SendError::InvalidRecipient(error)),
        }
    }

    /// The recipient at a silent payment address, if it is of the wallet's network.
    pub fn from_silent_payment(silent: SilentPaymentAddress, network: Network) -> (res: Result<
        Self,
        SendError,
    >)
        ensures
            recipient_outcome(res) == silent_recipient(silent@, network),
    {
        if silent.get_network() != network {
            return Err(SendError::NetworkMismatch);
        }
        Ok(Recipient::SilentPayment(silent))
    }

    /// The recipient at a bitcoin address, if it is valid for the wallet's network.
    pub fn from_address(address: Address, on_network: bool) -> (res: Result<Self, SendError>)
        ensures
            recipient_outcome(res) == plain_recipient(address@, on_network),
    {
        if !on_network {
            return Err(SendError::NetworkMismatch);
        }
        Ok(Recipient::Address(address))
    }
}

/// The script of a taproot output: version one, then 32 bytes of output key.
pub open spec fn p2tr_bytes(output_key: Seq<u8>) -> Seq<u8> {
    seq![0x51u8, 0x20u8] + output_key
}

pub fn p2tr_script(output_key: XOnlyPublicKey) -> (res: Vec<u8>)
    ensures
        res@ == p2tr_bytes(output_key@),
{
    let bytes = output_key.serialize();
    let mut script: Vec<u8> = Vec::new();
    script.push(0x51);
    script.push(0x20);
    let mut i: usize = 0;
    while i < 32
        invariant
            i <= 32,
            script@ == seq![0x51u8, 0x20u8] + bytes@.take(i as int),
        decreases 32 - i,
    {
        script.push(bytes[i]);
        assert(bytes@.take(i + 1) =~= bytes@.take(i as int).push(bytes@[i as int]));
        i += 1;
        assert(script@ =~= seq![0x51u8, 0x20u8] + bytes@.take(i as int));
    }
    assert(bytes@.take(32) =~= bytes@);
    script
}

/// The output keys that were derived for silent payment addresses.
#[derive(Debug)]
pub struct DerivedKeys {
    entries: Vec<(SilentPaymentAddress, Vec<XOnlyPublicKey>)>,
}

impl View for DerivedKeys {
    type V = Map<SilentPaymentAddressView, Seq<Seq<u8>>>;

    closed spec fn view(&self) -> Map<SilentPaymentAddressView, Seq<Seq<u8>>> {
        silent_payments::keys_by_address(self.entries@)
    }
}

impl DerivedKeys {
    pub fn new() -> (res: Self)
        ensures
            res@ == Map::<SilentPaymentAddressView, Seq<Seq<u8>>>::empty(),
    {
        DerivedKeys { entries: Vec::new() }
    }

    /// Puts `keys` in place of what there was for the address.
    pub fn insert(&mut self, address: SilentPaymentAddress, keys: Vec<XOnlyPublicKey>)
        ensures
            final(self)@ == old(self)@.insert(address@, silent_payments::x_only_views(keys@)),
    {
        self.entries.push((address, keys));
        assert(self.entries@.drop_last() =~= old(self).entries@);
    }

    /// The first key that was derived for the address.
    pub fn first_key(&self, address: &SilentPaymentAddress) -> (res: Option<XOnlyPublicKey>)
        ensures
            res is Some <==> has_key(self@, address@),
            res matches Some(key) ==> key@ == self@[address@][0],
    {
        let mut i: usize = self.entries.len();
        let ghost all = self.entries@;
        assert(all.take(i as int) =~= all);
        while i > 0
            invariant
                i <= all.len(),
                all == self.entries@,
                self@.contains_key(address@) == silent_payments::keys_by_address(
                    all.take(i as int),
                ).contains_key(address@),
                self@.contains_key(address@) ==> self@[address@]
                    == silent_payments::keys_by_address(all.take(i as int))[address@],
            decreases i,
        {
            assert(all.take(i as int).drop_last() =~= all.take(i - 1));
            assert(all.take(i as int).last() == all[i - 1]);
            i -= 1;
            if self.entries[i].0.same(address) {
                if self.entries[i].1.len() == 0 {
                    return None;
                }
                return Some(self.entries[i].1[0]);
            }
        }
        None
    }
}

/// Whether a key was derived for the address.
pub open spec fn has_key(
    derived: Map<SilentPaymentAddressView, Seq<Seq<u8>>>,
    address: SilentPaymentAddressView,
) -> bool {
    derived.contains_key(address) && derived[address].len() > 0
}

/// The script that pays the first key that was derived for the address.
pub fn sp_output_script(derived: &DerivedKeys, address: &SilentPaymentAddress) -> (res: Result<
    Vec<u8>,
    SendError,
>)
    ensures
        match res {
            Ok(script) => has_key(derived@, address@) && script@ == p2tr_bytes(
                derived@[address@][0],
            ),
            Err(error) => !has_key(derived@, address@) && error@ == SendErrorView::OutputDerivation,
        },
{
    match derived.first_key(address) {
        Some(key) => Ok(p2tr_script(key)),
        None => Err(SendError::OutputDerivation),
    }
}

/// The sequence number of an input that can be replaced, and whose lock time counts.
pub const SEQUENCE_RBF: u32 = 0xFFFF_FFFD;

/// The version of the transactions that the wallet makes.
pub const TRANSACTION_VERSION: i32 = 2;

/// Lock times from this number on are times, those below it heights.
pub const LOCK_TIME_THRESHOLD: u32 = 500_000_000;

/// A lock time that holds a transaction back until the height of the tip, or not at all where
/// the number is no height.
pub open spec fn lock_time_at(tip_height: u32) -> u32 {
    if tip_height < LOCK_TIME_THRESHOLD {
        tip_height
    } else {
        0
    }
}

pub open spec fn key_views(keys: Seq<SecretKey>) -> Seq<Seq<u8>> {
    Seq::new(keys.len(), |i: int| keys[i]@)
}

/// The keys that sign for the coins: the spend secret with the tweak of each added.
pub open spec fn signing_key_views(secret: Seq<u8>, selection: Seq<SpendableView>) -> Seq<
    Seq<u8>,
> {
    Seq::new(selection.len(), |i: int| secp::tweaked_key(secret, selection[i].coin.tweak))
}

/// Whether every tweak gives a key.
pub open spec fn can_sign(secret: Seq<u8>, selection: Seq<SpendableView>) -> bool {
    forall|i: int|
        0 <= i < selection.len() ==> secp::tweaked_value(
            secret,
            (#[trigger] selection[i]).coin.tweak,
        ) != 0
}

/// The keys of inputs, each marked as that of a taproot output, as every coin is.
pub open spec fn taproot_keys(keys: Seq<Seq<u8>>) -> Seq<(Seq<u8>, bool)> {
    Seq::new(keys.len(), |i: int| (keys[i], true))
}

pub open spec fn outpoints(selection: Seq<SpendableView>) -> Seq<OutPoint> {
    Seq::new(selection.len(), |i: int| selection[i].outpoint)
}

/// The outputs that the coins are.
pub open spec fn prevouts(selection: Seq<SpendableView>) -> Seq<TxOutView> {
    Seq::new(
        selection.len(),
        |i: int|
            TxOutView {
                value: selection[i].coin.value,
                script_pubkey: selection[i].coin.script_pubkey,
            },
    )
}

/// The silent payment addresses that a payment derives keys for: the recipient's, where it has
/// one, then that of the change.
pub open spec fn paid_addresses(
    recipient: RecipientView,
    change: SilentPaymentAddressView,
) -> Seq<SilentPaymentAddressView> {
    match recipient {
        RecipientView::SilentPayment(address) => seq![address, change],
        RecipientView::Address(_) => seq![change],
    }
}

/// The script that pays the recipient.
pub open spec fn recipient_script(
    recipient: RecipientView,
    derived: Map<SilentPaymentAddressView, Seq<Seq<u8>>>,
) -> Seq<u8> {
    match recipient {
        RecipientView::SilentPayment(address) => p2tr_bytes(derived[address][0]),
        RecipientView::Address(text) => address::address_script(text),
    }
}

/// The transaction before it is signed: it spends the coins, pays the target to the recipient
/// and all the rest back as change.
pub open spec fn drafted(
    recipient_script: Seq<u8>,
    target: u64,
    tip_height: u32,
    change_script: Seq<u8>,
    selection: Seq<SpendableView>,
) -> TransactionView {
    TransactionView {
        version: TRANSACTION_VERSION,
        lock_time: lock_time_at(tip_height),
        input: Seq::new(
            selection.len(),
            |i: int|
                TxInView {
                    previous_output: selection[i].outpoint,
                    script_sig: seq![],
                    sequence: SEQUENCE_RBF,
                    witness: seq![],
                },
        ),
        output: seq![
            TxOutView { value: target, script_pubkey: recipient_script },
            TxOutView {
                value: (coins::total_value(selection) - target) as u64,
                script_pubkey: change_script,
            },
        ],
    }
}

/// The transaction with a signature by each key as the witness of its input.
pub open spec fn signed(
    tx: TransactionView,
    prevouts: Seq<TxOutView>,
    keys: Seq<Seq<u8>>,
) -> TransactionView {
    TransactionView {
        input: Seq::new(
            tx.input.len(),
            |i: int|
                TxInView {
                    witness: seq![
                        secp::schnorr_signature(
                            transaction::key_spend_sighash(
                                tx.version,
                                tx.lock_time,
                                transaction::spends(tx.input),
                                tx.output,
                                prevouts,
                                i as nat,
                            ),
                            keys[i],
                        ),
                    ],
                    ..tx.input[i]
                },
        ),
        ..tx
    }
}

/// The bytes of a signature by the default type, which adds none for the type.
pub const SIGNATURE_LEN: usize = 64;

/// Whether the witness of every input is one signature, whole and with nothing added.
pub open spec fn fully_signed(tx: TransactionView) -> bool {
    forall|i: int|
        0 <= i < tx.input.len() ==> (#[trigger] tx.input[i]).witness.len() == 1
            && tx.input[i].witness[0].len() == SIGNATURE_LEN
}

/// Whether `outcome` is what comes of paying with the coins of `selection`.
pub open spec fn assembled(
    secret: Seq<u8>,
    recipient: RecipientView,
    target: u64,
    tip_height: u32,
    change: SilentPaymentAddressView,
    selection: Seq<SpendableView>,
    outcome: Result<TransactionView, SendErrorView>,
) -> bool {
    let keys = signing_key_views(secret, selection);
    if !can_sign(secret, selection) {
        outcome == Err::<TransactionView, SendErrorView>(
            SendErrorView::Secp(KeyError::InvalidTweak),
        )
    } else {
        match silent_payments::partial_secret(taproot_keys(keys), outpoints(selection)) {
            Err(error) => outcome == Err::<TransactionView, SendErrorView>(
                SendErrorView::SilentPayments(error),
            ),
            Ok(partial) => match silent_payments::recipient_pubkeys(
                paid_addresses(recipient, change),
                partial,
            ) {
                Err(errors) => outcome matches Err(SendErrorView::SilentPayments(error))
                    && errors.contains(error),
                Ok(derived) => {
                    let tx = signed(
                        drafted(
                            recipient_script(recipient, derived),
                            target,
                            tip_height,
                            p2tr_bytes(derived[change][0]),
                            selection,
                        ),
                        prevouts(selection),
                        keys,
                    );
                    outcome == Ok::<TransactionView, SendErrorView>(tx) && fully_signed(tx)
                },
            },
        }
    }
}

/// A result with what it carries in its place seen through the view.
pub open spec fn send_outcome(res: Result<Transaction, SendError>) -> Result<
    TransactionView,
    SendErrorView,
> {
    match res {
        Ok(tx) => Ok(tx@),
        Err(error) => Err(error@),
    }
}

/// The keys that sign for the selected coins.
pub fn signing_keys(spend_secret: &SecretKey, selection: &Vec<&SpendableCoin<'_>>) -> (res: Result<
    Vec<SecretKey>,
    SendError,
>)
    ensures
        match res {
            Ok(keys) => can_sign(spend_secret@, coins::picked_views(selection@)) && key_views(keys@)
                == signing_key_views(spend_secret@, coins::picked_views(selection@)),
            Err(error) => !can_sign(spend_secret@, coins::picked_views(selection@)) && error@
                == SendErrorView::Secp(KeyError::InvalidTweak),
        },
{
    let ghost views = coins::picked_views(selection@);
    let mut keys: Vec<SecretKey> = Vec::new();
    let mut i: usize = 0;
    while i < selection.len()
        invariant
            i <= selection@.len(),
            keys@.len() == i,
            views == coins::picked_views(selection@),
            forall|j: int|
                0 <= j < i ==> (#[trigger] keys@[j])@ == secp::tweaked_key(
                    spend_secret@,
                    views[j].coin.tweak,
                ) && secp::tweaked_value(spend_secret@, views[j].coin.tweak) != 0,
        decreases selection@.len() - i,
    {
        assert(views[i as int] == selection@[i as int]@);
        match spend_secret.add_tweak(&selection[i].coin.tweak) {
            Ok(key) => keys.push(key),
            Err(error) => return Err(SendError::Secp(error)),
        }
        i += 1;
    }
    assert forall|j: int| 0 <= j < views.len() implies secp::tweaked_value(
        spend_secret@,
        (#[trigger] views[j]).coin.tweak,
    ) != 0 by {
        assert(keys@[j]@ == secp::tweaked_key(spend_secret@, views[j].coin.tweak));
    }
    assert(key_views(keys@) =~= signing_key_views(spend_secret@, views));
    Ok(keys)
}

/// Coins taken from the front are worth no more than all.
pub proof fn total_of_front(coins: Seq<SpendableView>, n: int)
    requires
        0 <= n <= coins.len(),
    ensures
        coins::total_value(coins.take(n)) <= coins::total_value(coins),
    decreases coins.len(),
{
    if n < coins.len() {
        total_of_front(coins.drop_last(), n);
        assert(coins.drop_last().take(n) =~= coins.take(n));
    } else {
        assert(coins.take(n) =~= coins);
    }
}

/// What the selected coins are worth.
pub fn selection_value(selection: &Vec<&SpendableCoin<'_>>) -> (res: Sats)
    requires
        coins::total_value(coins::picked_views(selection@)) <= u64::MAX,
    ensures
        res.sat == coins::total_value(coins::picked_views(selection@)),
{
    let ghost views = coins::picked_views(selection@);
    let mut sum: u64 = 0;
    let mut i: usize = 0;
    while i < selection.len()
        invariant
            i <= selection@.len(),
            views == coins::picked_views(selection@),
            sum == coins::total_value(views.take(i as int)),
            coins::total_value(views) <= u64::MAX,
        decreases selection@.len() - i,
    {
        proof {
            total_of_front(views, i + 1);
            assert(views.take(i + 1).drop_last() =~= views.take(i as int));
            assert(views.take(i + 1).last() == selection@[i as int]@);
        }
        sum += selection[i].coin.value.to_sat();
        i += 1;
    }
    assert(views.take(i as int) =~= views);
    Sats::from_sat(sum)
}

/// The transaction that pays `target` out of the selected coins, before it is signed.
pub fn draft_transaction(
    recipient_script: Vec<u8>,
    target: Sats,
    tip_height: u32,
    change_script: Vec<u8>,
    selection: &Vec<&SpendableCoin<'_>>,
) -> (res: Transaction)
    requires
        target.sat <= coins::total_value(coins::picked_views(selection@)) <= u64::MAX,
    ensures
        res@ == drafted(
            recipient_script@,
            target.sat,
            tip_height,
            change_script@,
            coins::picked_views(selection@),
        ),
{
    let ghost views = coins::picked_views(selection@);
    let ghost draft = drafted(recipient_script@, target.sat, tip_height, change_script@, views);
    let mut input: Vec<TxIn> = Vec::new();
    let mut i: usize = 0;
    while i < selection.len()
        invariant
            i <= selection@.len(),
            input@.len() == i,
            views == coins::picked_views(selection@),
            draft.input.len() == views.len(),
            forall|j: int|
                0 <= j < views.len() ==> #[trigger] draft.input[j] == (TxInView {
                    previous_output: views[j].outpoint,
                    script_sig: seq![],
                    sequence: SEQUENCE_RBF,
                    witness: seq![],
                }),
            forall|j: int| 0 <= j < i ==> (#[trigger] input@[j])@ == draft.input[j],
        decreases selection@.len() - i,
    {
        let entry = TxIn {
            previous_output: selection[i].outpoint,
            script_sig: Vec::new(),
            sequence: SEQUENCE_RBF,
            witness: Vec::new(),
        };
        assert(views[i as int] == selection@[i as int]@);
        assert(entry@ =~= draft.input[i as int]);
        input.push(entry);
        i += 1;
    }
    let change_value = Sats::from_sat(selection_value(selection).to_sat() - target.to_sat());
    let lock_time = if tip_height < LOCK_TIME_THRESHOLD {
        tip_height
    } else {
        0
    };
    let mut output: Vec<TxOut> = Vec::new();
    output.push(TxOut { value: target, script_pubkey: recipient_script });
    output.push(TxOut { value: change_value, script_pubkey: change_script });
    let tx = Transaction { version: TRANSACTION_VERSION, lock_time, input, output };
    assert(tx@.input =~= draft.input);
    assert(tx@.output =~= draft.output);
    tx
}

/// Signs each input with its key.
pub fn sign_transaction(tx: &mut Transaction, prevouts: &Vec<TxOut>, keys: &Vec<SecretKey>)
    requires
        prevouts@.len() == old(tx).input@.len(),
        keys@.len() == old(tx).input@.len(),
    ensures
        final(tx)@ == signed(
            old(tx)@,
            transaction::output_views(prevouts@),
            key_views(keys@),
        ),
        fully_signed(final(tx)@),
{
    let ghost plan = signed(tx@, transaction::output_views(prevouts@), key_views(keys@));
    let mut witnesses: Vec<Vec<Vec<u8>>> = Vec::new();
    let mut i: usize = 0;
    while i < keys.len()
        invariant
            i <= keys@.len(),
            *tx == *old(tx),
            prevouts@.len() == tx.input@.len(),
            keys@.len() == tx.input@.len(),
            plan == signed(tx@, transaction::output_views(prevouts@), key_views(keys@)),
            witnesses@.len() == i,
            forall|j: int|
                0 <= j < i ==> (#[trigger] witnesses@[j])@.len() == 1 && witnesses@[j]@[0]@
                    == plan.input[j].witness[0] && plan.input[j].witness[0].len() == SIGNATURE_LEN,
        decreases keys@.len() - i,
    {
        let digest = sighash(tx.version, tx.lock_time, &tx.input, &tx.output, prevouts, i);
        let signature = keys[i].sign_schnorr(&digest);
        let mut item: Vec<u8> = Vec::new();
        let mut k: usize = 0;
        while k < 64
            invariant
                k <= 64,
                item@ == signature@.take(k as int),
            decreases 64 - k,
        {
            item.push(signature[k]);
            assert(signature@.take(k + 1) =~= signature@.take(k as int).push(signature@[k as int]));
            k += 1;
        }
        assert(signature@.take(64) =~= signature@);
        assert(key_views(keys@)[i as int] == keys@[i as int]@);
        let mut witness: Vec<Vec<u8>> = Vec::new();
        witness.push(item);
        assert(witness@[0]@ == plan.input[i as int].witness[0]);
        witnesses.push(witness);
        i += 1;
    }
    let ghost unsigned = tx@;
    let ghost count = tx.input@.len();
    assert forall|j: int| 0 <= j < count implies (#[trigger] plan.input[j]).witness[0].len()
        == SIGNATURE_LEN by {
        assert(witnesses@[j]@[0]@ == plan.input[j].witness[0]);
    }
    while witnesses.len() > 0
        invariant
            witnesses@.len() <= count,
            tx.input@.len() == count,
            tx.version == unsigned.version,
            tx.lock_time == unsigned.lock_time,
            transaction::output_views(tx.output@) == unsigned.output,
            unsigned.input.len() == count,
            plan.input.len() == count,
            forall|j: int|
                0 <= j < count ==> plan.input[j] == (TxInView {
                    witness: #[trigger] plan.input[j].witness,
                    ..unsigned.input[j]
                }) && plan.input[j].witness.len() == 1,
            forall|j: int|
                0 <= j < witnesses@.len() ==> (#[trigger] witnesses@[j])@.len() == 1
                    && witnesses@[j]@[0]@ == plan.input[j].witness[0],
            forall|j: int|
                0 <= j < count ==> (#[trigger] plan.input[j]).witness[0].len() == SIGNATURE_LEN,
            forall|j: int|
                0 <= j < witnesses@.len() ==> (#[trigger] tx.input@[j])@ == unsigned.input[j],
            forall|j: int|
                witnesses@.len() <= j < count ==> (#[trigger] tx.input@[j])@ == plan.input[j],
        decreases witnesses@.len(),
    {
        let at: usize = witnesses.len() - 1;
        assert(tx.input@[at as int]@ == unsigned.input[at as int]);
        if let Some(witness) = witnesses.pop() {
            tx.input[at].witness = witness;
        }
        assert(tx.input@[at as int]@ =~= plan.input[at as int]);
    }
    assert(tx@.input =~= plan.input);
}

/// The outputs that the selected coins are.
pub fn selection_prevouts(selection: &Vec<&SpendableCoin<'_>>) -> (res: Vec<TxOut>)
    ensures
        transaction::output_views(res@) == prevouts(coins::picked_views(selection@)),
{
    let ghost views = coins::picked_views(selection@);
    let mut outputs: Vec<TxOut> = Vec::new();
    let mut i: usize = 0;
    while i < selection.len()
        invariant
            i <= selection@.len(),
            outputs@.len() == i,
            views == coins::picked_views(selection@),
            forall|j: int| 0 <= j < i ==> (#[trigger] outputs@[j])@ == prevouts(views)[j],
        decreases selection@.len() - i,
    {
        let coin = selection[i].coin;
        let output = TxOut { value: coin.value, script_pubkey: coin.script_pubkey.clone() };
        assert(views[i as int] == selection@[i as int]@);
        assert(output@ =~= prevouts(views)[i as int]);
        outputs.push(output);
        i += 1;
    }
    assert(transaction::output_views(outputs@) =~= prevouts(views));
    outputs
}

/// Derives the output keys of a payment from the keys that sign for the selected coins.
fn derive_output_keys(
    keys: &Vec<SecretKey>,
    selection: &Vec<&SpendableCoin<'_>>,
    recipient: &Recipient,
    change_address: SilentPaymentAddress,
) -> (res: Result<DerivedKeys, SendError>)
    requires
        keys@.len() == selection@.len(),
    ensures
        ({
            let views = coins::picked_views(selection@);
            let paid = paid_addresses(recipient@, change_address@);
            match silent_payments::partial_secret(
                taproot_keys(key_views(keys@)),
                outpoints(views),
            ) {
                Err(error) => res matches Err(e) && e@ == SendErrorView::SilentPayments(error),
                Ok(partial) => match silent_payments::recipient_pubkeys(paid, partial) {
                    Err(errors) => res matches Err(e)
                        && (e@ matches SendErrorView::SilentPayments(error) && errors.contains(
                        error,
                    )),
                    Ok(derived) => {
                        &&& res matches Ok(d) && d@ == derived
                        &&& forall|i: int|
                            0 <= i < paid.len() ==> has_key(derived, #[trigger] paid[i])
                    },
                },
            }
        }),
{
    let ghost views = coins::picked_views(selection@);
    // True marks a key as that of a taproot output, as every coin is.
    let mut input_keys: Vec<([u8; 32], bool)> = Vec::new();
    let mut outpoints_spent: Vec<OutPoint> = Vec::new();
    let mut i: usize = 0;
    while i < keys.len()
        invariant
            i <= keys@.len(),
            keys@.len() == selection@.len(),
            views == coins::picked_views(selection@),
            input_keys@.len() == i,
            outpoints_spent@.len() == i,
            forall|j: int|
                0 <= j < i ==> (#[trigger] input_keys@[j]).0@ == keys@[j]@ && input_keys@[j].1
                    && secp::valid_secret_key(input_keys@[j].0@),
            forall|j: int| 0 <= j < i ==> #[trigger] outpoints_spent@[j] == views[j].outpoint,
        decreases keys@.len() - i,
    {
        input_keys.push((keys[i].secret_bytes(), true));
        outpoints_spent.push(selection[i].outpoint);
        assert(views[i as int] == selection@[i as int]@);
        i += 1;
    }
    assert(silent_payments::key_pairs(input_keys@) =~= taproot_keys(key_views(keys@)));
    assert(outpoints_spent@ =~= outpoints(views));
    let partial = match compute_partial_secret(&input_keys, &outpoints_spent) {
        Ok(secret) => secret,
        Err(error) => return Err(SendError::SilentPayments(error)),
    };
    let mut addresses: Vec<SilentPaymentAddress> = Vec::new();
    if let Recipient::SilentPayment(address) = recipient {
        addresses.push(*address);
    }
    addresses.push(change_address);
    let ghost paid = paid_addresses(recipient@, change_address@);
    assert(silent_payments::address_views(addresses@) =~= paid);
    match derive_recipient_pubkeys(&addresses, &partial) {
        Ok(entries) => {
            let derived = DerivedKeys { entries };
            assert forall|j: int| 0 <= j < paid.len() implies has_key(
                derived@,
                #[trigger] paid[j],
            ) by {
                assert(addresses@[j]@ == paid[j]);
            }
            Ok(derived)
        },
        Err(error) => Err(SendError::SilentPayments(error)),
    }
}

/// Makes and signs the transaction that pays `target` out of the selected coins. All that they
/// are worth beyond the target goes to the change address.
pub fn assemble_transaction(
    spend_secret: &SecretKey,
    recipient: &Recipient,
    target: Sats,
    tip_height: u32,
    change_address: SilentPaymentAddress,
    selection: &Vec<&SpendableCoin<'_>>,
) -> (res: Result<Transaction, SendError>)
    requires
        target.sat <= coins::total_value(coins::picked_views(selection@)) <= u64::MAX,
    ensures
        assembled(
            spend_secret@,
            recipient@,
            target.sat,
            tip_height,
            change_address@,
            coins::picked_views(selection@),
            send_outcome(res),
        ),
        res matches Ok(tx) ==> fully_signed(tx@),
{
    let ghost views = coins::picked_views(selection@);
    let keys = match signing_keys(spend_secret, selection) {
        Ok(keys) => keys,
        Err(error) => return Err(error),
    };
    assert(key_views(keys@).len() == keys@.len());
    let derived = match derive_output_keys(&keys, selection, recipient, change_address) {
        Ok(derived) => derived,
        Err(error) => return Err(error),
    };
    let ghost paid = paid_addresses(recipient@, change_address@);
    assert(has_key(derived@, paid[paid.len() - 1]));
    let script = match recipient {
        Recipient::Address(address) => address.script_pubkey(),
        Recipient::SilentPayment(address) => {
            assert(has_key(derived@, paid[0]));
            match sp_output_script(&derived, address) {
                Ok(script) => script,
                Err(error) => return Err(error),
            }
        },
    };
    let change_script = match sp_output_script(&derived, &change_address) {
        Ok(script) => script,
        Err(error) => return Err(error),
    };
    let mut tx = draft_transaction(script, target, tip_height, change_script, selection);
    assert(tx@.input.len() == views.len());
    let spent = selection_prevouts(selection);
    assert(transaction::output_views(spent@).len() == spent@.len());
    sign_transaction(&mut tx, &spent, &keys);
    Ok(tx)
}

/// Whether no draw that can come out holds more than 64 bits can count.
pub open spec fn draws_fit(target: nat, rate: nat, coins: Seq<SpendableView>) -> bool {
    forall|order: Seq<int>| #[trigger]
        coins::is_draw(target, rate, coins, order) ==> coins::total_value(
            coins::chosen(coins, order),
        ) <= u64::MAX
}

/// Whether `outcome` is what comes of a payment out of `coins`: some draw of them pays it, and
/// where none can, there is nothing to spend.
pub open spec fn built(
    secret: Seq<u8>,
    recipient: RecipientView,
    target: u64,
    rate: u64,
    tip_height: u32,
    change: SilentPaymentAddressView,
    coins: Seq<SpendableView>,
    outcome: Result<TransactionView, SendErrorView>,
) -> bool {
    if coins::can_draw(target as nat, rate as nat, coins) {
        exists|order: Seq<int>|
            #![trigger coins::is_draw(target as nat, rate as nat, coins, order)]
            coins::is_draw(target as nat, rate as nat, coins, order) && assembled(
                secret,
                recipient,
                target,
                tip_height,
                change,
                coins::chosen(coins, order),
                outcome,
            )
    } else {
        outcome == Err::<TransactionView, SendErrorView>(SendErrorView::NoSpendableCoins)
    }
}

/// What coins add toward a target is at most what they are worth.
pub proof fn effective_at_most_value(rate: nat, coins: Seq<SpendableView>)
    ensures
        coins::total_effective(rate, coins) <= coins::total_value(coins),
    decreases coins.len(),
{
    if coins.len() > 0 {
        effective_at_most_value(rate, coins.drop_last());
    }
}

/// Taking the value of one coin away takes it from the total.
proof fn total_without(coins: Seq<SpendableView>, k: int, empty: SpendableView)
    requires
        0 <= k < coins.len(),
        empty.coin.value == 0,
    ensures
        coins::total_value(coins) == coins::total_value(coins.update(k, empty))
            + coins[k].coin.value,
    decreases coins.len(),
{
    let less = coins.update(k, empty);
    if k < coins.len() - 1 {
        total_without(coins.drop_last(), k, empty);
        assert(less.drop_last() =~= coins.drop_last().update(k, empty));
    } else {
        assert(less.drop_last() =~= coins.drop_last());
    }
}

/// Coins chosen once each are worth no more than all.
pub proof fn chosen_at_most_all(coins: Seq<SpendableView>, order: Seq<int>)
    requires
        order.no_duplicates(),
        forall|i: int| 0 <= i < order.len() ==> 0 <= #[trigger] order[i] < coins.len(),
    ensures
        coins::total_value(coins::chosen(coins, order)) <= coins::total_value(coins),
    decreases order.len(),
{
    if order.len() > 0 {
        let k = order.last();
        let empty = SpendableView {
            coin: coins::CoinView { value: 0, ..coins[k].coin },
            ..coins[k]
        };
        let less = coins.update(k, empty);
        let fewer = order.drop_last();
        total_without(coins, k, empty);
        assert(order[order.len() - 1] == k);
        chosen_at_most_all(less, fewer);
        assert(coins::chosen(coins, order).drop_last() =~= coins::chosen(less, fewer));
    }
}

/// Coins that 64 bits can count together make every draw fit.
pub proof fn small_totals_fit(target: nat, rate: nat, coins: Seq<SpendableView>)
    requires
        coins::total_value(coins) <= u64::MAX,
    ensures
        draws_fit(target, rate, coins),
{
    assert forall|order: Seq<int>| #[trigger]
        coins::is_draw(target, rate, coins, order) implies coins::total_value(
        coins::chosen(coins, order),
    ) <= u64::MAX by {
        chosen_at_most_all(coins, order);
    }
}

/// Draws coins that reach the target and pays it out of them.
pub fn build_transaction<'a>(
    spend_secret: &SecretKey,
    recipient: Recipient,
    target_amount: Sats,
    fee_rate: FeeRate,
    tip_height: u32,
    change_address: SilentPaymentAddress,
    coins: &'a Vec<SpendableCoin<'a>>,
) -> (res: Result<Transaction, SendError>)
    requires
        coins@.len() <= u32::MAX,
        draws_fit(
            target_amount.sat as nat,
            fee_rate.sat_per_kwu as nat,
            coins::spendable_views(coins@),
        ),
    ensures
        built(
            spend_secret@,
            recipient@,
            target_amount.sat,
            fee_rate.sat_per_kwu,
            tip_height,
            change_address@,
            coins::spendable_views(coins@),
            send_outcome(res),
        ),
        res matches Ok(tx) ==> fully_signed(tx@),
{
    let selection = match random_draw(target_amount, fee_rate, coins) {
        Some(selection) => selection,
        None => return Err(SendError::NoSpendableCoins),
    };
    let ghost rate = fee_rate.sat_per_kwu as nat;
    proof {
        effective_at_most_value(rate, coins::picked_views(selection@));
    }
    assemble_transaction(
        spend_secret,
        &recipient,
        target_amount,
        tip_height,
        change_address,
        &selection,
    )
}

/// A payment neither makes nor loses value: its two outputs, the target for the recipient and
/// the change, are worth what the coins are that it spends.
pub proof fn payment_conserves_value(
    secret: Seq<u8>,
    recipient: RecipientView,
    target: u64,
    tip_height: u32,
    change: SilentPaymentAddressView,
    selection: Seq<SpendableView>,
    tx: TransactionView,
)
    requires
        target <= coins::total_value(selection) <= u64::MAX,
        assembled(secret, recipient, target, tip_height, change, selection, Ok(tx)),
    ensures
        tx.output.len() == 2,
        tx.output[0].value == target,
        tx.output[0].value + tx.output[1].value == coins::total_value(selection),
{
}

/// A payment spends the selected coins, one input for each and in their order, each with one
/// signature. A plain address is paid by its own script.
pub proof fn payment_spends_the_selection(
    secret: Seq<u8>,
    recipient: RecipientView,
    target: u64,
    tip_height: u32,
    change: SilentPaymentAddressView,
    selection: Seq<SpendableView>,
    tx: TransactionView,
)
    requires
        assembled(secret, recipient, target, tip_height, change, selection, Ok(tx)),
    ensures
        tx.input.len() == selection.len(),
        forall|i: int|
            0 <= i < selection.len() ==> (#[trigger] tx.input[i]).previous_output
                == selection[i].outpoint && tx.input[i].witness.len() == 1,
        recipient matches RecipientView::Address(text) ==> tx.output[0].script_pubkey
            == address::address_script(text),
{
}

/// Each input of a payment is signed by the key of its coin: the spend secret with the coin's
/// tweak added signs the digest of the finished transaction, and the signature is all that the
/// witness holds.
pub proof fn payment_is_signed(
    secret: Seq<u8>,
    recipient: RecipientView,
    target: u64,
    tip_height: u32,
    change: SilentPaymentAddressView,
    selection: Seq<SpendableView>,
    tx: TransactionView,
)
    requires
        assembled(secret, recipient, target, tip_height, change, selection, Ok(tx)),
    ensures
        forall|i: int|
            0 <= i < selection.len() ==> (#[trigger] tx.input[i]).witness == seq![
                secp::schnorr_signature(
                    transaction::key_spend_sighash(
                        tx.version,
                        tx.lock_time,
                        transaction::spends(tx.input),
                        tx.output,
                        prevouts(selection),
                        i as nat,
                    ),
                    secp::tweaked_key(secret, selection[i].coin.tweak),
                ),
            ],
        fully_signed(tx),
{
    let keys = signing_key_views(secret, selection);
    let partial = silent_payments::partial_secret(taproot_keys(keys), outpoints(selection))->Ok_0;
    let derived = silent_payments::recipient_pubkeys(
        paid_addresses(recipient, change),
        partial,
    )->Ok_0;
    let draft = drafted(
        recipient_script(recipient, derived),
        target,
        tip_height,
        p2tr_bytes(derived[change][0]),
        selection,
    );
    assert(tx == signed(draft, prevouts(selection), keys));
    assert(transaction::spends(tx.input) =~= transaction::spends(draft.input));
}

/// A payment to a silent payment address, and the change of any payment, goes to taproot outputs
/// of the keys that are derived for the two addresses.
pub proof fn payment_pays_derived_keys(
    secret: Seq<u8>,
    recipient: RecipientView,
    target: u64,
    tip_height: u32,
    change: SilentPaymentAddressView,
    selection: Seq<SpendableView>,
    tx: TransactionView,
)
    requires
        assembled(secret, recipient, target, tip_height, change, selection, Ok(tx)),
    ensures
        ({
            let partial = silent_payments::partial_secret(
                taproot_keys(signing_key_views(secret, selection)),
                outpoints(selection),
            );
            let derived = silent_payments::recipient_pubkeys(
                paid_addresses(recipient, change),
                partial->Ok_0,
            );
            &&& partial is Ok
            &&& derived is Ok
            &&& recipient matches RecipientView::SilentPayment(silent)
                ==> tx.output[0].script_pubkey == p2tr_bytes(derived->Ok_0[silent][0])
            &&& tx.output[1].script_pubkey == p2tr_bytes(derived->Ok_0[change][0])
        }),
{
}

/// No coin is spent twice: where the coins are different outputs, so are those that the inputs
/// of a payment out of them spend, and each is one of the coins.
pub proof fn inputs_are_distinct_coins(
    secret: Seq<u8>,
    recipient: RecipientView,
    target: u64,
    rate: u64,
    tip_height: u32,
    change: SilentPaymentAddressView,
    coins: Seq<SpendableView>,
    tx: TransactionView,
)
    requires
        forall|i: int, j: int|
            0 <= i < j < coins.len() ==> (#[trigger] coins[i]).outpoint != (
            #[trigger] coins[j]).outpoint,
        built(secret, recipient, target, rate, tip_height, change, coins, Ok(tx)),
    ensures
        forall|i: int, j: int|
            0 <= i < j < tx.input.len() ==> (#[trigger] tx.input[i]).previous_output != (
            #[trigger] tx.input[j]).previous_output,
        forall|i: int|
            0 <= i < tx.input.len() ==> exists|k: int|
                0 <= k < coins.len() && (#[trigger] coins[k]).outpoint == (
                #[trigger] tx.input[i]).previous_output,
{
    let order = choose|order: Seq<int>|
        #![trigger coins::is_draw(target as nat, rate as nat, coins, order)]
        coins::is_draw(target as nat, rate as nat, coins, order) && assembled(
            secret,
            recipient,
            target,
            tip_height,
            change,
            coins::chosen(coins, order),
            Ok(tx),
        );
    let selection = coins::chosen(coins, order);
    payment_spends_the_selection(secret, recipient, target, tip_height, change, selection, tx);
    assert forall|i: int, j: int| 0 <= i < j < tx.input.len() implies (
    #[trigger] tx.input[i]).previous_output != (#[trigger] tx.input[j]).previous_output by {
        assert(order[i] != order[j]);
        assert(coins[order[i]].outpoint != coins[order[j]].outpoint);
    }
    assert forall|i: int| 0 <= i < tx.input.len() implies exists|k: int|
        0 <= k < coins.len() && (#[trigger] coins[k]).outpoint == (
        #[trigger] tx.input[i]).previous_output by {
        assert(coins[order[i]].outpoint == tx.input[i].previous_output);
    }
}

/// An amount beyond what the coins are worth cannot be drawn, nor anything where there are none.
pub proof fn no_draw_beyond_balance(target: nat, rate: nat, coins: Seq<SpendableView>)
    requires
        coins::total_value(coins) < target || coins.len() == 0,
    ensures
        !coins::can_draw(target, rate, coins),
{
    effective_at_most_value(rate, coins);
}

/// Whom text names can be paid on the wallet's network.
pub proof fn recipients_are_of_the_network(text: Seq<char>, network: Network)
    ensures
        parsed_recipient(text, network) matches Ok(recipient) ==> match recipient {
            RecipientView::SilentPayment(silent) => silent.network == network,
            RecipientView::Address(address) => address == text && address::address_on_network(
                text,
                node_network(network),
            ),
        },
{
}

/// Whether text was read as no address at all.
pub open spec fn names_nobody(outcome: Result<RecipientView, SendErrorView>) -> bool {
    outcome matches Err(error) && error is InvalidRecipient
}

/// What another network makes of the same text: a silent payment address of one network is
/// refused on every other, what is no address is none anywhere, and whatever is wrong is the
/// sender's to mend.
pub proof fn recipients_across_networks(text: Seq<char>, network: Network, other: Network)
    requires
        network != other,
    ensures
        parsed_recipient(text, network) matches Ok(RecipientView::SilentPayment(_))
            ==> parsed_recipient(text, other) == Err::<RecipientView, SendErrorView>(
            SendErrorView::NetworkMismatch,
        ),
        names_nobody(parsed_recipient(text, network)) <==> names_nobody(
            parsed_recipient(text, other),
        ),
        parsed_recipient(text, network) matches Err(error) ==> error.is_user_error(),
{
}

/// What is wrong with a recipient's text is the sender's to mend; what goes wrong with deriving
/// and signing is not.
pub proof fn errors_by_cause(
    text: Seq<char>,
    network: Network,
    secret: Seq<u8>,
    recipient: RecipientView,
    target: u64,
    tip_height: u32,
    change: SilentPaymentAddressView,
    selection: Seq<SpendableView>,
    error: SendErrorView,
)
    ensures
        parsed_recipient(text, network) == Err::<RecipientView, SendErrorView>(error)
            ==> error.is_user_error(),
        assembled(secret, recipient, target, tip_height, change, selection, Err(error))
            ==> !error.is_user_error(),
{
}

/// Whom text names is paid where the network is right: a silent payment address on its own
/// network, and what is none, but a bitcoin address, on the networks that it is valid for. All
/// else is refused for the one thing that is wrong.
pub proof fn addresses_of_the_network_are_paid(text: Seq<char>, network: Network)
    ensures
        address::silent_payment_address(text) matches Some(silent) ==> parsed_recipient(
            text,
            network,
        ) == (if silent.network == network {
            Ok::<RecipientView, SendErrorView>(RecipientView::SilentPayment(silent))
        } else {
            Err::<RecipientView, SendErrorView>(SendErrorView::NetworkMismatch)
        }),
        address::silent_payment_address(text) is None && address::address_error(text) is None ==> {
            let on_network = match network {
                Network::Mainnet => address::address_on_network(text, BitcoinNetwork::Bitcoin),
                Network::Testnet => address::address_on_network(text, BitcoinNetwork::Testnet),
                Network::Regtest => address::address_on_network(text, BitcoinNetwork::Regtest),
            };
            &&& on_network ==> parsed_recipient(text, network) == Ok::<
                RecipientView,
                SendErrorView,
            >(RecipientView::Address(text))
            &&& !on_network ==> parsed_recipient(text, network) == Err::<
                RecipientView,
                SendErrorView,
            >(SendErrorView::NetworkMismatch)
        },
        address::silent_payment_address(text) is None ==> (address::address_error(text) matches Some(
            error,
        ) ==> parsed_recipient(text, network) == Err::<RecipientView, SendErrorView>(
            SendErrorView::InvalidRecipient(error),
        )),
{
}

/// An address is taken as the recipient that it is on its own network, and on no other.
pub proof fn recipients_are_taken_on_their_network(
    silent: SilentPaymentAddressView,
    network: Network,
    address: Seq<char>,
)
    ensures
        silent_recipient(silent, silent.network) == Ok::<RecipientView, SendErrorView>(
            RecipientView::SilentPayment(silent),
        ),
        network != silent.network ==> silent_recipient(silent, network) == Err::<
            RecipientView,
            SendErrorView,
        >(SendErrorView::NetworkMismatch),
        plain_recipient(address, true) == Ok::<RecipientView, SendErrorView>(
            RecipientView::Address(address),
        ),
        plain_recipient(address, false) == Err::<RecipientView, SendErrorView>(
            SendErrorView::NetworkMismatch,
        ),
        node_network(Network::Mainnet) is Bitcoin,
        node_network(Network::Testnet) is Testnet,
        node_network(Network::Regtest) is Regtest,
{
}

/// A taproot script is 34 bytes: version one, a push of 32, and the key.
pub proof fn taproot_scripts_hold_the_key(output_key: Seq<u8>)
    ensures
        p2tr_bytes(output_key).len() == 2 + output_key.len(),
        p2tr_bytes(output_key)[0] == 0x51,
        p2tr_bytes(output_key)[1] == 0x20,
        p2tr_bytes(output_key).skip(2) == output_key,
{
    assert(p2tr_bytes(output_key).skip(2) =~= output_key);
}

/// What a payment derives its output keys from, and when it comes about. The partial secret is
/// that of one pair for each coin, the spend secret with the coin's tweak added and the mark of a
/// taproot key, and of the outputs that the coins are. From it the keys of the recipient's silent
/// payment address, where it has one, and of the change address are derived. The payment comes
/// out exactly where every tweak gives a key and both derivations succeed; what fails first is
/// what it is refused for.
pub proof fn payments_derive_from_taproot_keys(
    secret: Seq<u8>,
    recipient: RecipientView,
    target: u64,
    tip_height: u32,
    change: SilentPaymentAddressView,
    selection: Seq<SpendableView>,
    outcome: Result<TransactionView, SendErrorView>,
    pairs: Seq<(Seq<u8>, bool)>,
    spent: Seq<OutPoint>,
    paid: Seq<SilentPaymentAddressView>,
)
    requires
        assembled(secret, recipient, target, tip_height, change, selection, outcome),
        pairs.len() == selection.len(),
        forall|i: int|
            0 <= i < pairs.len() ==> (#[trigger] pairs[i]).0 == secp::tweaked_key(
                secret,
                selection[i].coin.tweak,
            ) && pairs[i].1 == true,
        spent.len() == selection.len(),
        forall|i: int| 0 <= i < spent.len() ==> #[trigger] spent[i] == selection[i].outpoint,
        recipient matches RecipientView::SilentPayment(silent) ==> paid == seq![silent, change],
        recipient is Address ==> paid == seq![change],
    ensures
        ({
            let cancelled = exists|i: int|
                0 <= i < selection.len() && secp::tweaked_value(
                    secret,
                    (#[trigger] selection[i]).coin.tweak,
                ) == 0;
            let partial = silent_payments::partial_secret(pairs, spent);
            let derived = silent_payments::recipient_pubkeys(paid, partial->Ok_0);
            &&& cancelled ==> outcome == Err::<TransactionView, SendErrorView>(
                SendErrorView::Secp(KeyError::InvalidTweak),
            )
            &&& !cancelled ==> (partial matches Err(error) ==> outcome == Err::<
                TransactionView,
                SendErrorView,
            >(SendErrorView::SilentPayments(error)))
            &&& !cancelled && partial is Ok ==> (derived matches Err(errors) ==> (outcome matches Err(
                SendErrorView::SilentPayments(error),
            ) && errors.contains(error)))
            &&& !cancelled && partial is Ok && derived is Ok ==> (outcome matches Ok(tx)
                && tx.output.len() == 2 && tx.output[1].script_pubkey == seq![0x51u8, 0x20u8]
                + derived->Ok_0[change][0] && (match recipient {
                RecipientView::SilentPayment(silent) => tx.output[0].script_pubkey == seq![
                    0x51u8,
                    0x20u8,
                ] + derived->Ok_0[silent][0],
                RecipientView::Address(text) => tx.output[0].script_pubkey
                    == address::address_script(text),
            }))
        }),
{
    let keys = signing_key_views(secret, selection);
    assert(pairs =~= taproot_keys(keys));
    assert(spent =~= outpoints(selection));
    assert(paid =~= paid_addresses(recipient, change));
    if can_sign(secret, selection) {
        assert forall|i: int| 0 <= i < selection.len() implies secp::tweaked_value(
            secret,
            (#[trigger] selection[i]).coin.tweak,
        ) != 0 by {}
    } else {
        let i = choose|i: int|
            0 <= i < selection.len() && secp::tweaked_value(
                secret,
                (#[trigger] selection[i]).coin.tweak,
            ) == 0;
        assert(secp::tweaked_value(secret, selection[i].coin.tweak) == 0);
    }
}

/// What stands in a payment that comes out: version two, held back to the height of the tip where
/// that is a height, an input for each coin in order, replaceable and without a script, and two
/// outputs, the target first and then the rest of what the coins are worth.
pub proof fn payments_hold_what_was_asked(
    secret: Seq<u8>,
    recipient: RecipientView,
    target: u64,
    tip_height: u32,
    change: SilentPaymentAddressView,
    selection: Seq<SpendableView>,
    tx: TransactionView,
)
    requires
        assembled(secret, recipient, target, tip_height, change, selection, Ok(tx)),
        target <= coins::total_value(selection) <= u64::MAX,
    ensures
        tx.version == 2,
        tip_height < 500_000_000 ==> tx.lock_time == tip_height,
        tip_height >= 500_000_000 ==> tx.lock_time == 0,
        tx.input.len() == selection.len(),
        forall|i: int|
            0 <= i < selection.len() ==> {
                let input = #[trigger] tx.input[i];
                &&& input.previous_output == selection[i].outpoint
                &&& input.script_sig.len() == 0
                &&& input.sequence == 0xFFFF_FFFD
                &&& input.witness.len() == 1
                &&& input.witness[0].len() == 64
            },
        tx.output.len() == 2,
        tx.output[0].value == target,
        tx.output[1].value == coins::total_value(selection) - target,
{
}

/// What the keys of a payment sign: for each input, by the key of its own coin, the digest of the
/// finished transaction with the values and scripts of all coins that it spends.
pub proof fn payments_sign_for_every_coin(
    secret: Seq<u8>,
    recipient: RecipientView,
    target: u64,
    tip_height: u32,
    change: SilentPaymentAddressView,
    selection: Seq<SpendableView>,
    tx: TransactionView,
    spent: Seq<TxOutView>,
    inputs: Seq<(OutPoint, u32)>,
)
    requires
        assembled(secret, recipient, target, tip_height, change, selection, Ok(tx)),
        spent.len() == selection.len(),
        forall|i: int|
            0 <= i < spent.len() ==> (#[trigger] spent[i]).value == selection[i].coin.value
                && spent[i].script_pubkey == selection[i].coin.script_pubkey,
        inputs.len() == selection.len(),
        forall|i: int|
            0 <= i < inputs.len() ==> #[trigger] inputs[i] == (
                selection[i].outpoint,
                0xFFFF_FFFDu32,
            ),
    ensures
        forall|i: int|
            0 <= i < selection.len() ==> (#[trigger] tx.input[i]).witness[0]
                == secp::schnorr_signature(
                transaction::key_spend_sighash(
                    tx.version,
                    tx.lock_time,
                    inputs,
                    tx.output,
                    spent,
                    i as nat,
                ),
                secp::tweaked_key(secret, selection[i].coin.tweak),
            ),
{
    payment_is_signed(secret, recipient, target, tip_height, change, selection, tx);
    payment_spends_the_selection(secret, recipient, target, tip_height, change, selection, tx);
    assert(spent =~= prevouts(selection));
    assert forall|i: int| 0 <= i < selection.len() implies (#[trigger] tx.input[i]).sequence
        == 0xFFFF_FFFD by {}
    assert(inputs =~= transaction::spends(tx.input));
}

/// A payment is refused for want of coins exactly where none can be drawn; every other outcome is
/// that of some draw.
pub proof fn payments_are_made_of_draws(
    secret: Seq<u8>,
    recipient: RecipientView,
    target: u64,
    rate: u64,
    tip_height: u32,
    change: SilentPaymentAddressView,
    coins: Seq<SpendableView>,
    outcome: Result<TransactionView, SendErrorView>,
)
    requires
        built(secret, recipient, target, rate, tip_height, change, coins, outcome),
    ensures
        outcome == Err::<TransactionView, SendErrorView>(SendErrorView::NoSpendableCoins)
            <==> !coins::can_draw(target as nat, rate as nat, coins),
        coins::can_draw(target as nat, rate as nat, coins) ==> exists|order: Seq<int>|
            #![trigger coins::is_draw(target as nat, rate as nat, coins, order)]
            coins::is_draw(target as nat, rate as nat, coins, order) && assembled(
                secret,
                recipient,
                target,
                tip_height,
                change,
                coins::chosen(coins, order),
                outcome,
            ),
{
    if coins::can_draw(target as nat, rate as nat, coins) {
        let order = choose|order: Seq<int>|
            #![trigger coins::is_draw(target as nat, rate as nat, coins, order)]
            coins::is_draw(target as nat, rate as nat, coins, order) && assembled(
                secret,
                recipient,
                target,
                tip_height,
                change,
                coins::chosen(coins, order),
                outcome,
            );
        if let Err(error) = outcome {
            errors_by_cause(
                seq![],
                Network::Mainnet,
                secret,
                recipient,
                target,
                tip_height,
                change,
                coins::chosen(coins, order),
                error,
            );
        }
    }
}

/// Which errors the sender can mend.
pub proof fn user_errors(error: SendErrorView)
    ensures
        error.is_user_error() <==> error is WatchOnly || error is NoSpendableCoins
            || error is DustAmount || error is InsufficientFunds || error is NetworkMismatch
            || error is InvalidRecipient,
{
}

/// What errors say that carry something: the words first, the amounts in the order of what was
/// asked and what there is, the text of another error last.
pub proof fn send_errors_say_what_they_carry(
    asked: u64,
    there: u64,
    error: Seq<char>,
    key_error: KeyError,
)
    ensures
        (SendErrorView::DustAmount { amount: asked, dust: there }).text() == "amount "@
            + text::decimal_text(asked as nat) + " sats is below the dust limit of "@
            + text::decimal_text(there as nat) + " sats"@,
        (SendErrorView::InsufficientFunds { needed: asked, available: there }).text()
            == "insufficient funds: need "@ + text::decimal_text(asked as nat) + " sats, have "@
            + text::decimal_text(there as nat) + " sats"@,
        SendErrorView::InvalidRecipient(error).text() == "invalid recipient address: "@ + error,
        SendErrorView::SilentPayments(error).text() == "silent payments error: "@ + error,
        SendErrorView::Sighash(error).text() == "sighash error: "@ + error,
        SendErrorView::Secp(key_error).text() == "secp256k1 error: "@ + keys::key_error_text(
            key_error,
        ),
{
}

/// The views of results, errors and recipients show what they hold.
pub proof fn outcomes_show_results(
    tx: Transaction,
    recipient: Recipient,
    error: SendError,
    secrets: Seq<SecretKey>,
)
    ensures
        send_outcome(Ok(tx)) == Ok::<TransactionView, SendErrorView>(tx@),
        send_outcome(Err(error)) == Err::<TransactionView, SendErrorView>(error@),
        recipient_outcome(Ok(recipient)) == Ok::<RecipientView, SendErrorView>(recipient@),
        recipient_outcome(Err(error)) == Err::<RecipientView, SendErrorView>(error@),
        recipient matches Recipient::SilentPayment(silent) ==> recipient@
            == RecipientView::SilentPayment(silent@),
        recipient matches Recipient::Address(plain) ==> recipient@ == RecipientView::Address(
            plain@,
        ),
        error is WatchOnly <==> error@ is WatchOnly,
        error is NoSpendableCoins <==> error@ is NoSpendableCoins,
        error is NetworkMismatch <==> error@ is NetworkMismatch,
        error is OutputDerivation <==> error@ is OutputDerivation,
        error matches SendError::DustAmount { amount, dust } ==> error@
            == (SendErrorView::DustAmount { amount: amount.sat, dust: dust.sat }),
        error matches SendError::InsufficientFunds { needed, available } ==> error@
            == (SendErrorView::InsufficientFunds { needed: needed.sat, available: available.sat }),
        error matches SendError::InvalidRecipient(text) ==> error@
            == SendErrorView::InvalidRecipient(text@),
        error matches SendError::SilentPayments(text) ==> error@
            == SendErrorView::SilentPayments(text@),
        error matches SendError::Sighash(text) ==> error@ == SendErrorView::Sighash(text@),
        error matches SendError::Secp(key) ==> error@ == SendErrorView::Secp(key),
        key_views(secrets).len() == secrets.len(),
        forall|i: int| 0 <= i < secrets.len() ==> #[trigger] key_views(secrets)[i] == secrets[i]@,
{
}

/// What a draft holds, of whatever it is made: version two, the height of the tip as its lock time
/// where it is one, an unsigned replaceable input for each coin in order, and the two outputs.
pub proof fn drafts_hold_what_they_are_given(
    recipient_script: Seq<u8>,
    target: u64,
    tip_height: u32,
    change_script: Seq<u8>,
    selection: Seq<SpendableView>,
)
    requires
        target <= coins::total_value(selection) <= u64::MAX,
    ensures
        ({
            let tx = drafted(recipient_script, target, tip_height, change_script, selection);
            &&& tx.version == 2
            &&& tx.lock_time == if tip_height < 500_000_000 {
                tip_height
            } else {
                0
            }
            &&& tx.input.len() == selection.len()
            &&& forall|i: int|
                0 <= i < selection.len() ==> {
                    let input = #[trigger] tx.input[i];
                    &&& input.previous_output == selection[i].outpoint
                    &&& input.script_sig.len() == 0
                    &&& input.sequence == 0xFFFF_FFFD
                    &&& input.witness.len() == 0
                }
            &&& tx.output.len() == 2
            &&& tx.output[0].value == target
            &&& tx.output[0].script_pubkey == recipient_script
            &&& tx.output[0].value + tx.output[1].value == coins::total_value(selection)
            &&& tx.output[1].script_pubkey == change_script
        }),
{
}

/// Signing puts one signature into each input's witness and changes nothing else. The key in the
/// input's place signs, and what it signs covers the version, the lock time, what every input
/// spends and its sequence, all outputs and all outputs that are spent.
pub proof fn signing_changes_only_witnesses(
    tx: TransactionView,
    spent: Seq<TxOutView>,
    keys: Seq<Seq<u8>>,
    inputs: Seq<(OutPoint, u32)>,
)
    requires
        inputs.len() == tx.input.len(),
        forall|i: int|
            0 <= i < inputs.len() ==> #[trigger] inputs[i] == (
                tx.input[i].previous_output,
                tx.input[i].sequence,
            ),
    ensures
        ({
            let after = signed(tx, spent, keys);
            &&& after.version == tx.version
            &&& after.lock_time == tx.lock_time
            &&& after.output == tx.output
            &&& after.input.len() == tx.input.len()
            &&& forall|i: int|
                0 <= i < tx.input.len() ==> {
                    let input = #[trigger] after.input[i];
                    &&& input.previous_output == tx.input[i].previous_output
                    &&& input.script_sig == tx.input[i].script_sig
                    &&& input.sequence == tx.input[i].sequence
                    &&& input.witness.len() == 1
                    &&& input.witness[0] == secp::schnorr_signature(
                        transaction::key_spend_sighash(
                            tx.version,
                            tx.lock_time,
                            inputs,
                            tx.output,
                            spent,
                            i as nat,
                        ),
                        keys[i],
                    )
                }
        }),
{
    assert(inputs =~= transaction::spends(tx.input));
}

/// What errors say that carry nothing, and what it takes to have a key.
pub proof fn bare_errors_and_keys(
    derived: Map<SilentPaymentAddressView, Seq<Seq<u8>>>,
    address: SilentPaymentAddressView,
    tx: TransactionView,
)
    ensures
        SendErrorView::WatchOnly.text() == "wallet is watch-only: no spend secret to sign with"@,
        SendErrorView::NoSpendableCoins.text() == "no spendable coins"@,
        SendErrorView::NetworkMismatch.text() == "recipient address is for a different network"@,
        SendErrorView::OutputDerivation.text() == "recipient output key was not derived"@,
        has_key(derived, address) <==> derived.dom().contains(address) && derived[address].len()
            >= 1,
        fully_signed(tx) <==> forall|i: int|
            0 <= i < tx.input.len() ==> (#[trigger] tx.input[i]).witness.len() == 1
                && tx.input[i].witness[0].len() == 64,
{
}

/// Reading whom to pay gives exactly the address that the text is, on every network that it is
/// of, and pays it by the first key that was derived for it.
pub proof fn recipients_are_read_and_paid(
    text: &str,
    network: Network,
    read: Result<Recipient, SendError>,
    derived: DerivedKeys,
    address: SilentPaymentAddress,
    script: Result<Vec<u8>, SendError>,
)
    ensures
        call_ensures(Recipient::parse, (text, network), read) ==> {
            &&& address::silent_payment_address(text@) matches Some(silent) ==> if silent.network
                == network {
                read matches Ok(Recipient::SilentPayment(address)) && address@ == silent
            } else {
                read matches Err(SendError::NetworkMismatch)
            }
            &&& address::silent_payment_address(text@) is None ==> (address::address_error(
                text@,
            ) matches Some(error) ==> (read matches Err(SendError::InvalidRecipient(e)) && e@
                == error))
            &&& address::silent_payment_address(text@) is None && address::address_error(
                text@,
            ) is None ==> if address::address_on_network(text@, node_network(network)) {
                read matches Ok(Recipient::Address(address)) && address@ == text@
            } else {
                read matches Err(SendError::NetworkMismatch)
            }
        },
        call_ensures(sp_output_script, (&derived, &address), script) ==> if derived@.dom().contains(
            address@,
        ) && derived@[address@].len() >= 1 {
            script matches Ok(bytes) && bytes@ == seq![0x51u8, 0x20u8] + derived@[address@][0]
        } else {
            script matches Err(SendError::OutputDerivation)
        },
{
}

} // verus!
