//! The wallet: the keys that it scans and signs with, its coins, and which of them are set aside
//! for payments under way.
use crate::address::{Network, SilentPaymentAddress, SilentPaymentAddressView};
use crate::coins;
use crate::coins::{Coin, CoinView, SpendableCoin, SpendableView};
use crate::keys::{PublicKey, SecretKey, XOnlyPublicKey};
use crate::keys_file::{KeysFileView, SilentPaymentKeysFile, SpendKey, SpendKeyView};
use crate::secp;
use crate::sending;
use crate::sending::{build_transaction, Recipient, RecipientView, SendError, SendErrorView};
use crate::silent_payments;
use crate::silent_payments::{compute_change_address, compute_label};
use crate::transaction;
use crate::transaction::{FeeRate, OutPoint, Sats, Transaction, TransactionView};
use vstd::prelude::*;

verus! {

/// The number of the label that marks change.
pub const CHANGE_LABEL: u32 = 0;

/// The version of silent payments.
pub const SILENT_PAYMENT_VERSION: u8 = 0;

/// The addresses of a wallet: one to hand out, one for its own change.
#[derive(Debug, Clone, Copy, PartialEq, Eq)]
pub struct Receiver {
    receiving_address: SilentPaymentAddress,
    change_address: SilentPaymentAddress,
}

/// The addresses of a wallet, their keys as byte sequences.
#[verifier::ext_equal]
pub struct ReceiverView {
    pub receiving_address: SilentPaymentAddressView,
    pub change_address: SilentPaymentAddressView,
}

impl View for Receiver {
    type V = ReceiverView;

    closed spec fn view(&self) -> ReceiverView {
        ReceiverView {
            receiving_address: self.receiving_address@,
            change_address: self.change_address@,
        }
    }
}

impl Receiver {
    pub fn get_receiving_address(&self) -> (res: SilentPaymentAddress)
        ensures
            res@ == self@.receiving_address,
    {
        self.receiving_address
    }

    /// The address that the wallet pays its change to. It is not for others to see.
    pub fn get_change_address(&self) -> (res: SilentPaymentAddress)
        ensures
            res@ == self@.change_address,
    {
        self.change_address
    }
}

/// The addresses that a scan secret and a spend key give on a network.
pub open spec fn receiver_of(scan_secret: Seq<u8>, spend_key: Seq<u8>, network: Network) -> Result<
    ReceiverView,
    Seq<char>,
> {
    let scan_key = secp::public_key_of(scan_secret);
    match silent_payments::change_address(
        SILENT_PAYMENT_VERSION as u32,
        scan_key,
        spend_key,
        silent_payments::label_scalar(scan_secret, CHANGE_LABEL),
        network,
    ) {
        Ok(change_address) => Ok(
            ReceiverView {
                receiving_address: SilentPaymentAddressView {
                    version: SILENT_PAYMENT_VERSION,
                    scan_pubkey: scan_key,
                    spend_pubkey: spend_key,
                    network,
                },
                change_address,
            },
        ),
        Err(error) => Err(error),
    }
}

pub fn build_receiver(scan_secret: &SecretKey, spend_key: PublicKey, network: Network) -> (res:
    Result<Receiver, String>)
    ensures
        match res {
            Ok(receiver) => receiver_of(scan_secret@, spend_key@, network) == Ok::<
                ReceiverView,
                Seq<char>,
            >(receiver@),
            Err(error) => receiver_of(scan_secret@, spend_key@, network) == Err::<
                ReceiverView,
                Seq<char>,
            >(error@),
        },
{
    let label = compute_label(&scan_secret.secret_bytes(), CHANGE_LABEL);
    let scan_pubkey = scan_secret.public_key().serialize();
    let spend_pubkey = spend_key.serialize();
    match compute_change_address(
        SILENT_PAYMENT_VERSION as u32,
        &scan_pubkey,
        &spend_pubkey,
        &label,
        network,
    ) {
        Ok(change_address) => {
            let receiving_address = SilentPaymentAddress::from_keys(
                scan_pubkey,
                spend_pubkey,
                network,
            );
            Ok(Receiver { receiving_address, change_address })
        },
        Err(error) => Err(error),
    }
}

/// Coins by the output that each is, in the order in which they came.
#[derive(Debug)]
pub struct CoinMap {
    entries: Vec<(OutPoint, Coin)>,
}

/// Whether every output is listed once.
pub open spec fn listed_once(entries: Seq<(OutPoint, CoinView)>) -> bool {
    forall|i: int, j: int|
        0 <= i < j < entries.len() ==> (#[trigger] entries[i]).0 != (#[trigger] entries[j]).0
}

/// The coins with one put in: in place of the one that is the same output, or at the end.
pub open spec fn with_coin(
    entries: Seq<(OutPoint, CoinView)>,
    outpoint: OutPoint,
    coin: CoinView,
) -> Seq<(OutPoint, CoinView)> {
    if exists|i: int| 0 <= i < entries.len() && (#[trigger] entries[i]).0 == outpoint {
        let at = choose|i: int| 0 <= i < entries.len() && (#[trigger] entries[i]).0 == outpoint;
        entries.update(at, (outpoint, coin))
    } else {
        entries.push((outpoint, coin))
    }
}

/// Each output stays listed once, the new coin is there, and the others are as they were.
pub proof fn with_coin_puts_one_in(
    entries: Seq<(OutPoint, CoinView)>,
    outpoint: OutPoint,
    coin: CoinView,
)
    requires
        listed_once(entries),
    ensures
        listed_once(with_coin(entries, outpoint, coin)),
        with_coin(entries, outpoint, coin).contains((outpoint, coin)),
        forall|other: OutPoint, c: CoinView|
            other != outpoint ==> (#[trigger] with_coin(entries, outpoint, coin).contains(
                (other, c),
            ) <==> entries.contains((other, c))),
{
    let after = with_coin(entries, outpoint, coin);
    let at = if exists|i: int| 0 <= i < entries.len() && (#[trigger] entries[i]).0 == outpoint {
        choose|i: int| 0 <= i < entries.len() && (#[trigger] entries[i]).0 == outpoint
    } else {
        entries.len() as int
    };
    assert(after[at] == (outpoint, coin));
    assert forall|other: OutPoint, c: CoinView| other != outpoint implies (
    #[trigger] after.contains((other, c)) <==> entries.contains((other, c))) by {
        if after.contains((other, c)) {
            let i = choose|i: int| 0 <= i < after.len() && after[i] == (other, c);
            assert(entries[i] == (other, c));
        }
        if entries.contains((other, c)) {
            let i = choose|i: int| 0 <= i < entries.len() && entries[i] == (other, c);
            assert(after[i] == (other, c));
        }
    }
}

impl View for CoinMap {
    type V = Seq<(OutPoint, CoinView)>;

    closed spec fn view(&self) -> Seq<(OutPoint, CoinView)> {
        Seq::new(self.entries@.len(), |i: int| (self.entries@[i].0, self.entries@[i].1@))
    }
}

impl CoinMap {
    /// Holds of every map that code can come by.
    #[verifier::type_invariant]
    pub open spec fn well_formed(self) -> bool {
        listed_once(self@)
    }

    pub fn new() -> (res: Self)
        ensures
            res@ == Seq::<(OutPoint, CoinView)>::empty(),
    {
        let res = CoinMap { entries: Vec::new() };
        assert(res@ =~= Seq::<(OutPoint, CoinView)>::empty());
        res
    }

    pub fn len(&self) -> (res: usize)
        ensures
            res == self@.len(),
    {
        self.entries.len()
    }

    /// The coin at a place in the list, and the output that it is.
    pub fn entry(&self, at: usize) -> (res: (OutPoint, &Coin))
        requires
            at < self@.len(),
        ensures
            (res.0, res.1@) == self@[at as int],
    {
        (self.entries[at].0, &self.entries[at].1)
    }

    /// Puts a coin in, in place of the one that is the same output.
    pub fn insert(&mut self, outpoint: OutPoint, coin: Coin)
        ensures
            final(self)@ == with_coin(old(self)@, outpoint, coin@),
    {
        proof {
            use_type_invariant(&*self);
            with_coin_puts_one_in(self@, outpoint, coin@);
        }
        let ghost before = self@;
        let ghost after = with_coin(before, outpoint, coin@);
        let mut entries: Vec<(OutPoint, Coin)> = Vec::new();
        std::mem::swap(&mut entries, &mut self.entries);
        let mut at: usize = 0;
        while at < entries.len() && !entries[at].0.same(&outpoint)
            invariant
                at <= entries@.len(),
                before.len() == entries@.len(),
                forall|i: int| 0 <= i < before.len() ==> (#[trigger] before[i]) == (
                    entries@[i].0,
                    entries@[i].1@,
                ),
                forall|i: int| 0 <= i < at ==> (#[trigger] before[i]).0 != outpoint,
            decreases entries@.len() - at,
        {
            assert(before[at as int].0 == entries@[at as int].0);
            at += 1;
        }
        if at < entries.len() {
            assert(before[at as int].0 == outpoint);
            entries.set(at, (outpoint, coin));
        } else {
            entries.push((outpoint, coin));
        }
        let ghost made = CoinMap { entries };
        assert(made@ =~= after);
        self.entries = entries;
    }
}

/// Outputs, none listed twice.
#[derive(Debug)]
pub struct OutPointSet {
    items: Vec<OutPoint>,
}

impl View for OutPointSet {
    type V = Set<OutPoint>;

    closed spec fn view(&self) -> Set<OutPoint> {
        self.items@.to_set()
    }
}

impl OutPointSet {
    /// Holds of every set that code can come by.
    #[verifier::type_invariant]
    spec fn listed_singly(self) -> bool {
        self.items@.no_duplicates()
    }

    pub fn new() -> (res: Self)
        ensures
            res@ == Set::<OutPoint>::empty(),
    {
        let res = OutPointSet { items: Vec::new() };
        assert(res@ =~= Set::<OutPoint>::empty());
        res
    }

    pub fn contains(&self, outpoint: &OutPoint) -> (res: bool)
        ensures
            res == self@.contains(*outpoint),
    {
        let mut i: usize = 0;
        while i < self.items.len()
            invariant
                i <= self.items@.len(),
                forall|j: int| 0 <= j < i ==> self.items@[j] != *outpoint,
            decreases self.items@.len() - i,
        {
            if self.items[i].same(outpoint) {
                assert(self.items@[i as int] == *outpoint);
                return true;
            }
            i += 1;
        }
        false
    }

    pub fn insert(&mut self, outpoint: OutPoint)
        ensures
            final(self)@ == old(self)@.insert(outpoint),
    {
        if !self.contains(&outpoint) {
            proof {
                use_type_invariant(&*self);
            }
            let ghost before = self.items@;
            let mut items: Vec<OutPoint> = Vec::new();
            std::mem::swap(&mut items, &mut self.items);
            items.push(outpoint);
            assert(!before.contains(outpoint));
            assert(items@.no_duplicates());
            self.items = items;
            assert(self.items@ == before.push(outpoint));
            assert forall|o: OutPoint| self@.contains(o) <==> old(self)@.insert(outpoint).contains(
                o,
            ) by {
                if self@.contains(o) && o != outpoint {
                    let i = choose|i: int| 0 <= i < self.items@.len() && self.items@[i] == o;
                    assert(before[i] == o);
                }
                if before.contains(o) {
                    let i = choose|i: int| 0 <= i < before.len() && before[i] == o;
                    assert(self.items@[i] == o);
                }
                assert(self.items@[before.len() as int] == outpoint);
            }
        }
        assert(self@ =~= old(self)@.insert(outpoint));
    }

    pub fn remove(&mut self, outpoint: &OutPoint)
        ensures
            final(self)@ == old(self)@.remove(*outpoint),
    {
        proof {
            use_type_invariant(&*self);
        }
        let ghost before = self.items@;
        let mut kept: Vec<OutPoint> = Vec::new();
        let mut i: usize = 0;
        while i < self.items.len()
            invariant
                i <= self.items@.len(),
                self.items@ == before,
                before.no_duplicates(),
                kept@.no_duplicates(),
                forall|o: OutPoint|
                    #![trigger kept@.contains(o)]
                    kept@.contains(o) <==> o != *outpoint && before.take(i as int).contains(o),
            decreases self.items@.len() - i,
        {
            let item = self.items[i];
            let ghost so_far = kept@;
            let ghost front = before.take(i as int);
            assert(before.take(i + 1) =~= front.push(item));
            assert(!front.contains(item));
            assert(!kept@.contains(item));
            if !item.same(outpoint) {
                kept.push(item);
            }
            assert forall|o: OutPoint|
                #![trigger kept@.contains(o)]
                kept@.contains(o) <==> o != *outpoint && before.take(i + 1).contains(o) by {
                assert(front.push(item).contains(o) <==> front.contains(o) || o == item) by {
                    pushed_members(front, item, o);
                }
                assert(so_far.push(item).contains(o) <==> so_far.contains(o) || o == item) by {
                    pushed_members(so_far, item, o);
                }
            }
            i += 1;
        }
        assert(before.take(i as int) =~= before);
        self.items = kept;
        assert(self@ =~= old(self)@.remove(*outpoint));
    }
}

/// What a sequence holds after a push.
proof fn pushed_members(s: Seq<OutPoint>, item: OutPoint, o: OutPoint)
    ensures
        s.push(item).contains(o) <==> s.contains(o) || o == item,
{
    let pushed = s.push(item);
    if s.contains(o) {
        let i = choose|i: int| 0 <= i < s.len() && s[i] == o;
        assert(pushed[i] == o);
    }
    assert(pushed[s.len() as int] == item);
    if pushed.contains(o) && o != item {
        let i = choose|i: int| 0 <= i < pushed.len() && pushed[i] == o;
        assert(s[i] == o);
    }
}

/// A silent payments wallet. One without a spend secret can watch its coins, not spend them.
#[derive(Debug)]
pub struct Wallet {
    pub network: Network,
    pub utxos: CoinMap,
    pub scan_height: u32,
    pub spend_secret: Option<SecretKey>,
    pub keys: Option<Receiver>,
    pub reserved: OutPointSet,
}

/// A wallet, its parts seen through their views.
#[verifier::ext_equal]
pub struct WalletView {
    pub network: Network,
    pub utxos: Seq<(OutPoint, CoinView)>,
    pub scan_height: u32,
    pub spend_secret: Option<Seq<u8>>,
    pub keys: Option<ReceiverView>,
    pub reserved: Set<OutPoint>,
}

impl View for Wallet {
    type V = WalletView;

    open spec fn view(&self) -> WalletView {
        WalletView {
            network: self.network,
            utxos: self.utxos@,
            scan_height: self.scan_height,
            spend_secret: match self.spend_secret {
                Some(secret) => Some(secret@),
                None => None,
            },
            keys: match self.keys {
                Some(receiver) => Some(receiver@),
                None => None,
            },
            reserved: self.reserved@,
        }
    }
}

/// The coins that are neither spent nor set aside.
pub open spec fn spendable_coins(
    utxos: Seq<(OutPoint, CoinView)>,
    reserved: Set<OutPoint>,
) -> Seq<SpendableView>
    decreases utxos.len(),
{
    if utxos.len() == 0 {
        seq![]
    } else {
        let rest = spendable_coins(utxos.drop_last(), reserved);
        let (outpoint, coin) = utxos.last();
        if coin.spent_by is None && !reserved.contains(outpoint) {
            rest.push(SpendableView { outpoint, coin })
        } else {
            rest
        }
    }
}

impl WalletView {
    pub open spec fn spendable(self) -> Seq<SpendableView> {
        spendable_coins(self.utxos, self.reserved)
    }

    /// The wallet with outputs set aside.
    pub open spec fn reserve(self, outpoints: Seq<OutPoint>) -> WalletView {
        WalletView { reserved: self.reserved.union(outpoints.to_set()), ..self }
    }

    /// The wallet with outputs no longer set aside.
    pub open spec fn release(self, outpoints: Seq<OutPoint>) -> WalletView {
        WalletView { reserved: self.reserved.difference(outpoints.to_set()), ..self }
    }

    /// The wallet after a broadcast: where it failed, what the transaction would have spent is
    /// free again.
    pub open spec fn settle(self, tx: TransactionView, delivered: bool) -> WalletView {
        if delivered {
            self
        } else {
            self.release(spent_outpoints(tx))
        }
    }

    /// The wallet that scans with these keys, and the secret, if there is one, that it signs with.
    pub open spec fn import(
        self,
        scan_secret: Seq<u8>,
        spend_key: Seq<u8>,
        spend_secret: Option<Seq<u8>>,
    ) -> Result<WalletView, Seq<char>> {
        match receiver_of(scan_secret, spend_key, self.network) {
            Ok(receiver) => Ok(WalletView { keys: Some(receiver), spend_secret, ..self }),
            Err(error) => Err(error),
        }
    }

    /// The wallet with the keys of a keys file. An x coordinate stands for its point of even y.
    pub open spec fn import_file(self, file: KeysFileView) -> Result<WalletView, Seq<char>> {
        match file.spend {
            SpendKeyView::Secret(secret) => self.import(
                file.scan_key,
                secp::public_key_of(secret),
                Some(secret),
            ),
            SpendKeyView::XOnlyPublic(key) => self.import(file.scan_key, seq![2u8] + key, None),
        }
    }

    /// Whether the wallet has what it takes to spend its coins.
    pub open spec fn can_sign(self) -> bool {
        self.spend_secret is Some && self.keys is Some
    }

    /// Whether `outcome` is what comes of a payment out of this wallet.
    pub open spec fn pays(
        self,
        recipient: RecipientView,
        amount: u64,
        rate: u64,
        outcome: Result<TransactionView, SendErrorView>,
    ) -> bool {
        if !self.can_sign() {
            outcome == Err::<TransactionView, SendErrorView>(SendErrorView::WatchOnly)
        } else {
            sending::built(
                self.spend_secret->0,
                recipient,
                amount,
                rate,
                self.scan_height,
                self.keys->0.change_address,
                self.spendable(),
                outcome,
            )
        }
    }
}

/// The outputs that a transaction spends.
pub open spec fn spent_outpoints(tx: TransactionView) -> Seq<OutPoint> {
    Seq::new(tx.input.len(), |i: int| tx.input[i].previous_output)
}

/// Whether an import came out as `expected`: the new wallet in place of the old one, or the old
/// one with an error.
pub open spec fn imported(
    before: WalletView,
    after: WalletView,
    expected: Result<WalletView, Seq<char>>,
    res: Result<(), String>,
) -> bool {
    match expected {
        Ok(wallet) => res is Ok && after == wallet,
        Err(text) => after == before && (res matches Err(error) && error@ == text),
    }
}

/// The next coin in the list joins those that can be spent where it is free.
proof fn spendable_step(
    utxos: Seq<(OutPoint, CoinView)>,
    reserved: Set<OutPoint>,
    n: int,
)
    requires
        0 <= n < utxos.len(),
    ensures
        spendable_coins(utxos.take(n + 1), reserved) == if utxos[n].1.spent_by is None && !reserved.contains(
            utxos[n].0,
        ) {
            spendable_coins(utxos.take(n), reserved).push(
                SpendableView { outpoint: utxos[n].0, coin: utxos[n].1 },
            )
        } else {
            spendable_coins(utxos.take(n), reserved)
        },
{
    assert(utxos.take(n + 1).drop_last() =~= utxos.take(n));
    assert(utxos.take(n + 1).last() == utxos[n]);
}

impl Wallet {
    /// A wallet without keys and coins.
    pub fn new(network: Network) -> (res: Self)
        ensures
            res@ == (WalletView {
                network,
                utxos: seq![],
                scan_height: 0,
                spend_secret: None,
                keys: None,
                reserved: Set::empty(),
            }),
    {
        Wallet {
            network,
            utxos: CoinMap::new(),
            scan_height: 0,
            spend_secret: None,
            keys: None,
            reserved: OutPointSet::new(),
        }
    }

    /// Scans and signs with these keys from now on. On an error nothing changes.
    pub fn import_signing_keys(&mut self, scan_secret: SecretKey, spend_secret: SecretKey) -> (res:
        Result<(), String>)
        ensures
            imported(
                old(self)@,
                final(self)@,
                old(self)@.import(
                    scan_secret@,
                    secp::public_key_of(spend_secret@),
                    Some(spend_secret@),
                ),
                res,
            ),
    {
        match build_receiver(&scan_secret, spend_secret.public_key(), self.network) {
            Ok(receiver) => {
                self.keys = Some(receiver);
                self.spend_secret = Some(spend_secret);
                Ok(())
            },
            Err(error) => Err(error),
        }
    }

    /// Scans with these keys from now on, without the secret to sign with. On an error nothing
    /// changes.
    pub fn import_keys(&mut self, scan_secret: SecretKey, spend_key: XOnlyPublicKey) -> (res:
        Result<(), String>)
        ensures
            imported(
                old(self)@,
                final(self)@,
                old(self)@.import(scan_secret@, seq![2u8] + spend_key@, None),
                res,
            ),
    {
        match build_receiver(&scan_secret, spend_key.even_public_key(), self.network) {
            Ok(receiver) => {
                self.keys = Some(receiver);
                self.spend_secret = None;
                Ok(())
            },
            Err(error) => Err(error),
        }
    }

    /// Takes the keys of a keys file. The address to hand out then has the public keys of the two,
    /// and only a secret spend key is kept to sign with.
    pub fn import_keys_file(&mut self, file: &SilentPaymentKeysFile) -> (res: Result<(), String>)
        ensures
            imported(old(self)@, final(self)@, old(self)@.import_file(file@), res),
            res is Ok ==> (final(self)@.keys matches Some(receiver)
                && receiver.receiving_address.scan_pubkey == secp::public_key_of(file.scan_key@)
                && receiver.receiving_address.network == old(self)@.network),
            res is Ok ==> (file.spend matches SpendKey::Secret(secret)
                ==> final(self)@.spend_secret == Some(secret@)
                && final(self)@.keys->0.receiving_address.spend_pubkey == secp::public_key_of(
                secret@,
            )),
            res is Ok ==> (file.spend matches SpendKey::XOnlyPublic(key)
                ==> final(self)@.spend_secret is None
                && final(self)@.keys->0.receiving_address.spend_pubkey == seq![2u8] + key@),
            res is Err ==> final(self)@ == old(self)@,
    {
        match file.spend {
            SpendKey::Secret(secret) => self.import_signing_keys(file.scan_key, secret),
            SpendKey::XOnlyPublic(key) => self.import_keys(file.scan_key, key),
        }
    }

    /// Whether the wallet has keys to scan with.
    pub fn has_keys(&self) -> (res: bool)
        ensures
            res == (self@.keys is Some),
    {
        self.keys.is_some()
    }

    /// Sets outputs aside for a payment under way.
    pub fn reserve_coins(&mut self, outpoints: &Vec<OutPoint>)
        ensures
            final(self)@ == old(self)@.reserve(outpoints@),
    {
        let ghost before = self@;
        let mut i: usize = 0;
        while i < outpoints.len()
            invariant
                i <= outpoints@.len(),
                before == old(self)@,
                self@ == before.reserve(outpoints@.take(i as int)),
            decreases outpoints@.len() - i,
        {
            let ghost set_aside = self.reserved@;
            self.reserved.insert(outpoints[i]);
            proof {
                let front = outpoints@.take(i as int);
                assert(outpoints@.take(i + 1) =~= front.push(outpoints@[i as int]));
                assert forall|o: OutPoint|
                    self.reserved@.contains(o) <==> before.reserve(
                        outpoints@.take(i + 1),
                    ).reserved.contains(o) by {
                    pushed_members(front, outpoints@[i as int], o);
                }
                assert(self.reserved@ =~= before.reserve(outpoints@.take(i + 1)).reserved);
            }
            i += 1;
        }
        assert(outpoints@.take(i as int) =~= outpoints@);
        assert(self@ =~= before.reserve(outpoints@));
    }

    /// Frees outputs that were set aside.
    pub fn release_coins(&mut self, outpoints: &Vec<OutPoint>)
        ensures
            final(self)@ == old(self)@.release(outpoints@),
    {
        let ghost before = self@;
        let mut i: usize = 0;
        while i < outpoints.len()
            invariant
                i <= outpoints@.len(),
                before == old(self)@,
                self@ == before.release(outpoints@.take(i as int)),
            decreases outpoints@.len() - i,
        {
            self.reserved.remove(&outpoints[i]);
            proof {
                let front = outpoints@.take(i as int);
                assert(outpoints@.take(i + 1) =~= front.push(outpoints@[i as int]));
                assert forall|o: OutPoint|
                    self.reserved@.contains(o) <==> before.release(
                        outpoints@.take(i + 1),
                    ).reserved.contains(o) by {
                    pushed_members(front, outpoints@[i as int], o);
                }
                assert(self.reserved@ =~= before.release(outpoints@.take(i + 1)).reserved);
            }
            i += 1;
        }
        assert(outpoints@.take(i as int) =~= outpoints@);
        assert(self@ =~= before.release(outpoints@));
    }

    /// Takes note of how a broadcast went: where it failed, the coins that the transaction would
    /// have spent are free again.
    pub fn settle_broadcast(&mut self, tx: &Transaction, delivered: bool)
        ensures
            final(self)@ == old(self)@.settle(tx@, delivered),
    {
        if !delivered {
            let outpoints = tx.outpoints();
            self.release_coins(&outpoints);
        }
    }

    /// The coins that are neither spent nor set aside.
    pub fn spendable_coins(&self) -> (res: Vec<SpendableCoin<'_>>)
        ensures
            coins::spendable_views(res@) == self@.spendable(),
    {
        let ghost utxos = self.utxos@;
        let mut found: Vec<SpendableCoin<'_>> = Vec::new();
        let mut i: usize = 0;
        assert(coins::spendable_views(found@) =~= spendable_coins(utxos.take(0), self.reserved@));
        while i < self.utxos.len()
            invariant
                i <= utxos.len(),
                utxos == self.utxos@,
                coins::spendable_views(found@) == spendable_coins(
                    utxos.take(i as int),
                    self.reserved@,
                ),
            decreases utxos.len() - i,
        {
            let (outpoint, coin) = self.utxos.entry(i);
            proof {
                spendable_step(utxos, self.reserved@, i as int);
            }
            let ghost so_far = coins::spendable_views(found@);
            if coin.spent_by.is_none() && !self.reserved.contains(&outpoint) {
                let spendable = SpendableCoin { outpoint, coin };
                found.push(spendable);
                assert(coins::spendable_views(found@) =~= so_far.push(spendable@));
            }
            i += 1;
        }
        assert(utxos.take(i as int) =~= utxos);
        found
    }

    /// What the coins that can be spent are worth; `None` where 64 bits cannot count it.
    pub fn spendable_value(&self) -> (res: Option<Sats>)
        ensures
            res is Some <==> coins::total_value(self@.spendable()) <= u64::MAX,
            res matches Some(total) ==> total.sat == coins::total_value(self@.spendable()),
    {
        let list = self.spendable_coins();
        let ghost views = coins::spendable_views(list@);
        let mut sum: u64 = 0;
        let mut i: usize = 0;
        while i < list.len()
            invariant
                i <= list@.len(),
                views == coins::spendable_views(list@),
                views == self@.spendable(),
                sum == coins::total_value(views.take(i as int)),
            decreases list@.len() - i,
        {
            proof {
                sending::total_of_front(views, i + 1);
                assert(views.take(i + 1).drop_last() =~= views.take(i as int));
                assert(views.take(i + 1).last() == list@[i as int]@);
            }
            match sum.checked_add(list[i].coin.value.to_sat()) {
                Some(next) => sum = next,
                None => return None,
            }
            i += 1;
        }
        assert(views.take(i as int) =~= views);
        Some(Sats::from_sat(sum))
    }

    /// Pays `amount` out of coins that are neither spent nor set aside.
    pub fn build_transaction(&self, recipient: Recipient, amount: Sats, fee_rate: FeeRate) -> (res:
        Result<Transaction, SendError>)
        requires
            self@.can_sign() ==> self@.spendable().len() <= u32::MAX && sending::draws_fit(
                amount.sat as nat,
                fee_rate.sat_per_kwu as nat,
                self@.spendable(),
            ),
        ensures
            self@.pays(
                recipient@,
                amount.sat,
                fee_rate.sat_per_kwu,
                sending::send_outcome(res),
            ),
            res matches Ok(tx) ==> sending::fully_signed(tx@),
    {
        let spend_secret = match self.spend_secret {
            Some(secret) => secret,
            None => return Err(SendError::WatchOnly),
        };
        let change_address = match &self.keys {
            Some(receiver) => receiver.get_change_address(),
            None => return Err(SendError::WatchOnly),
        };
        let coins = self.spendable_coins();
        assert(coins::spendable_views(coins@).len() == coins@.len());
        build_transaction(
            &spend_secret,
            recipient,
            amount,
            fee_rate,
            self.scan_height,
            change_address,
            &coins,
        )
    }
}

/// Every coin that can be spent is one of the wallet's, neither spent nor set aside, and no two
/// are the same output.
pub proof fn spendable_coins_are_free(utxos: Seq<(OutPoint, CoinView)>, reserved: Set<OutPoint>)
    requires
        listed_once(utxos),
    ensures
        forall|i: int|
            0 <= i < spendable_coins(utxos, reserved).len() ==> {
                let found = #[trigger] spendable_coins(utxos, reserved)[i];
                &&& utxos.contains((found.outpoint, found.coin))
                &&& found.coin.spent_by is None
                &&& !reserved.contains(found.outpoint)
            },
        forall|i: int, j: int|
            0 <= i < j < spendable_coins(utxos, reserved).len() ==> (
            #[trigger] spendable_coins(utxos, reserved)[i]).outpoint != (
            #[trigger] spendable_coins(utxos, reserved)[j]).outpoint,
    decreases utxos.len(),
{
    if utxos.len() > 0 {
        let front = utxos.drop_last();
        spendable_coins_are_free(front, reserved);
        let rest = spendable_coins(front, reserved);
        let all = spendable_coins(utxos, reserved);
        assert forall|i: int| 0 <= i < all.len() implies {
            let found = #[trigger] all[i];
            &&& utxos.contains((found.outpoint, found.coin))
            &&& found.coin.spent_by is None
            &&& !reserved.contains(found.outpoint)
        } by {
            if i < rest.len() {
                assert(rest[i] == all[i]);
                let k = choose|k: int|
                    0 <= k < front.len() && front[k] == (rest[i].outpoint, rest[i].coin);
                assert(utxos[k] == (rest[i].outpoint, rest[i].coin));
            } else {
                assert(utxos[utxos.len() - 1] == utxos.last());
            }
        }
        assert forall|i: int, j: int| 0 <= i < j < all.len() implies (
        #[trigger] all[i]).outpoint != (#[trigger] all[j]).outpoint by {
            assert(rest[i] == all[i]);
            if j < rest.len() {
                assert(rest[j] == all[j]);
            } else {
                let k = choose|k: int|
                    0 <= k < front.len() && front[k] == (rest[i].outpoint, rest[i].coin);
                assert(utxos[k].0 != utxos[utxos.len() - 1].0);
            }
        }
    }
}

/// A payment spends only coins of the wallet that are neither spent nor set aside, and none of
/// them twice.
pub proof fn payments_leave_reserved_coins(
    wallet: WalletView,
    recipient: RecipientView,
    amount: u64,
    rate: u64,
    tx: TransactionView,
)
    requires
        listed_once(wallet.utxos),
        wallet.pays(recipient, amount, rate, Ok(tx)),
    ensures
        forall|i: int|
            0 <= i < tx.input.len() ==> !wallet.reserved.contains(
                (#[trigger] tx.input[i]).previous_output,
            ),
        forall|i: int|
            0 <= i < tx.input.len() ==> exists|k: int|
                0 <= k < wallet.utxos.len() && (#[trigger] wallet.utxos[k]).0 == (
                #[trigger] tx.input[i]).previous_output && wallet.utxos[k].1.spent_by is None,
        forall|i: int, j: int|
            0 <= i < j < tx.input.len() ==> (#[trigger] tx.input[i]).previous_output != (
            #[trigger] tx.input[j]).previous_output,
{
    let coins = wallet.spendable();
    spendable_coins_are_free(wallet.utxos, wallet.reserved);
    sending::inputs_are_distinct_coins(
        wallet.spend_secret->0,
        recipient,
        amount,
        rate,
        wallet.scan_height,
        wallet.keys->0.change_address,
        coins,
        tx,
    );
    assert forall|i: int| 0 <= i < tx.input.len() implies !wallet.reserved.contains(
        (#[trigger] tx.input[i]).previous_output,
    ) && exists|k: int|
        0 <= k < wallet.utxos.len() && (#[trigger] wallet.utxos[k]).0
            == tx.input[i].previous_output && wallet.utxos[k].1.spent_by is None by {
        let c = choose|c: int|
            0 <= c < coins.len() && (#[trigger] coins[c]).outpoint == tx.input[i].previous_output;
        let k = choose|k: int|
            0 <= k < wallet.utxos.len() && wallet.utxos[k] == (coins[c].outpoint, coins[c].coin);
        assert(wallet.utxos[k].0 == tx.input[i].previous_output);
    }
}

/// Coins that are set aside cannot be selected.
pub proof fn reserved_coins_are_not_spendable(wallet: WalletView, outpoints: Seq<OutPoint>)
    requires
        listed_once(wallet.utxos),
    ensures
        forall|i: int|
            0 <= i < wallet.reserve(outpoints).spendable().len() ==> !outpoints.contains(
                (#[trigger] wallet.reserve(outpoints).spendable()[i]).outpoint,
            ),
{
    spendable_coins_are_free(wallet.utxos, wallet.reserve(outpoints).reserved);
}

/// Releasing what was set aside, none of which was before, gives the wallet back.
pub proof fn release_undoes_reserve(wallet: WalletView, outpoints: Seq<OutPoint>)
    requires
        forall|i: int|
            0 <= i < outpoints.len() ==> !wallet.reserved.contains(#[trigger] outpoints[i]),
    ensures
        wallet.reserve(outpoints).release(outpoints) == wallet,
{
    assert(wallet.reserve(outpoints).release(outpoints) =~= wallet);
}

/// A payment whose coins are set aside and whose broadcast then fails leaves the wallet as it
/// was; one that is delivered leaves its coins set aside.
pub proof fn failed_broadcast_undoes_payment(
    wallet: WalletView,
    recipient: RecipientView,
    amount: u64,
    rate: u64,
    tx: TransactionView,
)
    requires
        listed_once(wallet.utxos),
        wallet.pays(recipient, amount, rate, Ok(tx)),
    ensures
        wallet.reserve(spent_outpoints(tx)).settle(tx, false) == wallet,
        wallet.reserve(spent_outpoints(tx)).settle(tx, true) == wallet.reserve(
            spent_outpoints(tx),
        ),
{
    payments_leave_reserved_coins(wallet, recipient, amount, rate, tx);
    let outpoints = spent_outpoints(tx);
    assert forall|i: int| 0 <= i < outpoints.len() implies !wallet.reserved.contains(
        #[trigger] outpoints[i],
    ) by {
        assert(outpoints[i] == tx.input[i].previous_output);
    }
    release_undoes_reserve(wallet, outpoints);
}

/// A wallet that took a public spend key sends nothing.
pub proof fn watch_only_wallets_send_nothing(
    wallet: WalletView,
    file: KeysFileView,
    recipient: RecipientView,
    amount: u64,
    rate: u64,
    outcome: Result<TransactionView, SendErrorView>,
)
    requires
        file.spend is XOnlyPublic,
        wallet.import_file(file) is Ok,
        wallet.import_file(file)->Ok_0.pays(recipient, amount, rate, outcome),
    ensures
        outcome == Err::<TransactionView, SendErrorView>(SendErrorView::WatchOnly),
{
}

/// A wallet all of whose coins are spent or set aside has nothing to pay with.
pub proof fn spent_wallets_have_no_coins(
    wallet: WalletView,
    recipient: RecipientView,
    amount: u64,
    rate: u64,
    outcome: Result<TransactionView, SendErrorView>,
)
    requires
        wallet.can_sign(),
        wallet.spendable().len() == 0,
        wallet.pays(recipient, amount, rate, outcome),
    ensures
        outcome == Err::<TransactionView, SendErrorView>(SendErrorView::NoSpendableCoins),
{
}

/// The addresses of a wallet: the one to hand out has the public keys of the scan secret and the
/// spend key as they were given, and the change goes to the address of label zero.
pub proof fn receivers_have_their_keys(scan_secret: Seq<u8>, spend_key: Seq<u8>, network: Network)
    ensures
        ({
            let change = silent_payments::change_address(
                0,
                secp::public_key_of(scan_secret),
                spend_key,
                silent_payments::label_scalar(scan_secret, 0),
                network,
            );
            &&& change matches Err(error) ==> receiver_of(scan_secret, spend_key, network) == Err::<
                ReceiverView,
                Seq<char>,
            >(error)
            &&& change matches Ok(address) ==> (receiver_of(
                scan_secret,
                spend_key,
                network,
            ) matches Ok(receiver) && receiver.change_address == address
                && receiver.receiving_address.version == 0
                && receiver.receiving_address.scan_pubkey == secp::public_key_of(scan_secret)
                && receiver.receiving_address.spend_pubkey == spend_key
                && receiver.receiving_address.network == network)
        }),
{
}

/// A wallet that takes a keys file scans with its scan key and signs with its spend secret, if it
/// holds one: the address that it hands out has the public keys of the two, on the wallet's
/// network. Coins, what is set aside and the height stay as they were.
pub proof fn keys_files_give_the_wallet_its_keys(wallet: WalletView, file: KeysFileView)
    ensures
        wallet.import_file(file) matches Ok(after) ==> {
            &&& after.keys matches Some(receiver) && receiver.receiving_address.scan_pubkey
                == secp::public_key_of(file.scan_key) && receiver.receiving_address.network
                == wallet.network && receiver.receiving_address.version == 0
            &&& file.spend matches SpendKeyView::Secret(secret) ==> after.spend_secret == Some(
                secret,
            ) && after.keys->0.receiving_address.spend_pubkey == secp::public_key_of(secret)
                && silent_payments::change_address(
                0,
                secp::public_key_of(file.scan_key),
                secp::public_key_of(secret),
                silent_payments::label_scalar(file.scan_key, 0),
                wallet.network,
            ) == Ok::<SilentPaymentAddressView, Seq<char>>(after.keys->0.change_address)
            &&& file.spend matches SpendKeyView::XOnlyPublic(key) ==> after.spend_secret is None
                && after.keys->0.receiving_address.spend_pubkey == seq![2u8] + key
                && silent_payments::change_address(
                0,
                secp::public_key_of(file.scan_key),
                seq![2u8] + key,
                silent_payments::label_scalar(file.scan_key, 0),
                wallet.network,
            ) == Ok::<SilentPaymentAddressView, Seq<char>>(after.keys->0.change_address)
            &&& after.network == wallet.network
            &&& after.utxos == wallet.utxos
            &&& after.scan_height == wallet.scan_height
            &&& after.reserved == wallet.reserved
        },
{
}

/// Keys that are imported by themselves are the wallet's keys, and nothing else about it changes.
pub proof fn imports_set_the_keys(
    wallet: WalletView,
    scan_secret: Seq<u8>,
    spend_key: Seq<u8>,
    spend_secret: Option<Seq<u8>>,
)
    ensures
        wallet.import(scan_secret, spend_key, spend_secret) is Ok <==> receiver_of(
            scan_secret,
            spend_key,
            wallet.network,
        ) is Ok,
        wallet.import(scan_secret, spend_key, spend_secret) matches Err(error) ==> receiver_of(
            scan_secret,
            spend_key,
            wallet.network,
        ) == Err::<ReceiverView, Seq<char>>(error),
        wallet.import(scan_secret, spend_key, spend_secret) matches Ok(after) ==> {
            &&& after.keys == Some(receiver_of(scan_secret, spend_key, wallet.network)->Ok_0)
            &&& after.spend_secret == spend_secret
            &&& after.network == wallet.network
            &&& after.utxos == wallet.utxos
            &&& after.scan_height == wallet.scan_height
            &&& after.reserved == wallet.reserved
        },
{
}

/// An import that succeeds leaves the new wallet, one that fails the old one and the reason.
pub proof fn imports_succeed_or_change_nothing(
    before: WalletView,
    after: WalletView,
    expected: Result<WalletView, Seq<char>>,
    res: Result<(), String>,
)
    requires
        imported(before, after, expected, res),
    ensures
        res is Ok <==> expected is Ok,
        res is Ok ==> expected == Ok::<WalletView, Seq<char>>(after),
        res matches Err(error) ==> after == before && expected == Err::<WalletView, Seq<char>>(
            error@,
        ),
{
}

/// Setting aside adds the outputs that are named to those that are, and freeing takes the named
/// ones away; nothing else changes.
pub proof fn reserving_and_releasing(wallet: WalletView, outpoints: Seq<OutPoint>, o: OutPoint)
    ensures
        wallet.reserve(outpoints).reserved.contains(o) <==> wallet.reserved.contains(o)
            || outpoints.contains(o),
        wallet.release(outpoints).reserved.contains(o) <==> wallet.reserved.contains(o)
            && !outpoints.contains(o),
        (WalletView { reserved: wallet.reserved, ..wallet.reserve(outpoints) }) == wallet,
        (WalletView { reserved: wallet.reserved, ..wallet.release(outpoints) }) == wallet,
{
}

/// After a broadcast that failed, exactly the outputs that the transaction would have spent are
/// not set aside any more; after one that was delivered, all is as it was.
pub proof fn failed_broadcasts_free_their_inputs(
    wallet: WalletView,
    tx: TransactionView,
    o: OutPoint,
)
    ensures
        wallet.settle(tx, true) == wallet,
        wallet.settle(tx, false).reserved.contains(o) <==> wallet.reserved.contains(o) && forall|
            i: int,
        |
            0 <= i < tx.input.len() ==> (#[trigger] tx.input[i]).previous_output != o,
        (WalletView { reserved: wallet.reserved, ..wallet.settle(tx, false) }) == wallet,
{
    let inputs = spent_outpoints(tx);
    if inputs.contains(o) {
        let i = choose|i: int| 0 <= i < inputs.len() && inputs[i] == o;
        assert(tx.input[i].previous_output == o);
    }
    if exists|i: int| 0 <= i < tx.input.len() && (#[trigger] tx.input[i]).previous_output == o {
        let i = choose|i: int|
            0 <= i < tx.input.len() && (#[trigger] tx.input[i]).previous_output == o;
        assert(inputs[i] == o);
    }
}

/// Every coin that is neither spent nor set aside can be spent, and coins that come later in the
/// wallet come later among those.
pub proof fn free_coins_can_be_spent(
    utxos: Seq<(OutPoint, CoinView)>,
    reserved: Set<OutPoint>,
    last: (OutPoint, CoinView),
)
    ensures
        forall|k: int|
            0 <= k < utxos.len() && (#[trigger] utxos[k]).1.spent_by is None && !reserved.contains(
                utxos[k].0,
            ) ==> spendable_coins(utxos, reserved).contains(
                SpendableView { outpoint: utxos[k].0, coin: utxos[k].1 },
            ),
        last.1.spent_by is None && !reserved.contains(last.0) ==> spendable_coins(
            utxos.push(last),
            reserved,
        ) == spendable_coins(utxos, reserved).push(
            SpendableView { outpoint: last.0, coin: last.1 },
        ),
        last.1.spent_by is Some || reserved.contains(last.0) ==> spendable_coins(
            utxos.push(last),
            reserved,
        ) == spendable_coins(utxos, reserved),
    decreases utxos.len(),
{
    assert(utxos.push(last).drop_last() =~= utxos);
    if utxos.len() > 0 {
        let front = utxos.drop_last();
        free_coins_can_be_spent(front, reserved, utxos.last());
        let rest = spendable_coins(front, reserved);
        let all = spendable_coins(utxos, reserved);
        assert forall|k: int|
            0 <= k < utxos.len() && (#[trigger] utxos[k]).1.spent_by is None && !reserved.contains(
                utxos[k].0,
            ) implies all.contains(SpendableView { outpoint: utxos[k].0, coin: utxos[k].1 }) by {
            let found = SpendableView { outpoint: utxos[k].0, coin: utxos[k].1 };
            if k < front.len() {
                assert(front[k] == utxos[k]);
                assert(rest.contains(found));
                let i = choose|i: int| 0 <= i < rest.len() && rest[i] == found;
                assert(all[i] == found);
            } else {
                assert(all[all.len() - 1] == found);
            }
        }
    }
}

/// A coin that is new to the wallet comes last; one that takes another's place leaves the list as
/// long as it was and every other coin where it stood.
pub proof fn coins_keep_their_places(
    entries: Seq<(OutPoint, CoinView)>,
    outpoint: OutPoint,
    coin: CoinView,
    i: int,
)
    requires
        listed_once(entries),
        0 <= i < entries.len(),
    ensures
        entries[i].0 == outpoint ==> with_coin(entries, outpoint, coin)[i] == (outpoint, coin)
            && with_coin(entries, outpoint, coin).len() == entries.len(),
        entries[i].0 != outpoint ==> with_coin(entries, outpoint, coin)[i] == entries[i],
        (forall|k: int| 0 <= k < entries.len() ==> (#[trigger] entries[k]).0 != outpoint)
            ==> with_coin(entries, outpoint, coin) == entries.push((outpoint, coin)),
{
    if exists|k: int| 0 <= k < entries.len() && (#[trigger] entries[k]).0 == outpoint {
        let at = choose|k: int| 0 <= k < entries.len() && (#[trigger] entries[k]).0 == outpoint;
        assert(entries[at].0 == outpoint);
        if entries[i].0 == outpoint {
            assert(i == at);
        }
    }
}

/// Paying takes a spend secret and keys; without either the wallet only watches. With both, a
/// payment is signed with that secret, held back to the height that was scanned, and its change
/// goes to the wallet's own change address.
pub proof fn wallets_pay_with_their_own_keys(
    wallet: WalletView,
    recipient: RecipientView,
    amount: u64,
    rate: u64,
    outcome: Result<TransactionView, SendErrorView>,
)
    requires
        wallet.pays(recipient, amount, rate, outcome),
    ensures
        outcome == Err::<TransactionView, SendErrorView>(SendErrorView::WatchOnly)
            <==> wallet.spend_secret is None || wallet.keys is None,
        wallet.spend_secret matches Some(secret) ==> (wallet.keys matches Some(receiver) ==> {
            &&& outcome == Err::<TransactionView, SendErrorView>(SendErrorView::NoSpendableCoins)
                <==> !coins::can_draw(amount as nat, rate as nat, wallet.spendable())
            &&& coins::can_draw(amount as nat, rate as nat, wallet.spendable()) ==> exists|
                order: Seq<int>,
            |
                #![trigger coins::is_draw(amount as nat, rate as nat, wallet.spendable(), order)]
                coins::is_draw(amount as nat, rate as nat, wallet.spendable(), order)
                    && sending::assembled(
                    secret,
                    recipient,
                    amount,
                    wallet.scan_height,
                    receiver.change_address,
                    coins::chosen(wallet.spendable(), order),
                    outcome,
                )
        }),
        wallet.spendable() == spendable_coins(wallet.utxos, wallet.reserved),
{
    if let Some(secret) = wallet.spend_secret {
        if let Some(receiver) = wallet.keys {
            let list = wallet.spendable();
            sending::payments_are_made_of_draws(
                secret,
                recipient,
                amount,
                rate,
                wallet.scan_height,
                receiver.change_address,
                list,
                outcome,
            );
            if coins::can_draw(amount as nat, rate as nat, list) {
                let order = choose|order: Seq<int>|
                    #![trigger coins::is_draw(amount as nat, rate as nat, list, order)]
                    coins::is_draw(amount as nat, rate as nat, list, order) && sending::assembled(
                        secret,
                        recipient,
                        amount,
                        wallet.scan_height,
                        receiver.change_address,
                        coins::chosen(list, order),
                        outcome,
                    );
                if let Err(error) = outcome {
                    sending::errors_by_cause(
                        seq![],
                        wallet.network,
                        secret,
                        recipient,
                        amount,
                        wallet.scan_height,
                        receiver.change_address,
                        coins::chosen(list, order),
                        error,
                    );
                }
            }
        }
    }
}

/// The view of a wallet shows all of it.
pub proof fn wallet_views_show_wallets(wallet: Wallet)
    ensures
        wallet@.network == wallet.network,
        wallet@.utxos == wallet.utxos@,
        wallet@.scan_height == wallet.scan_height,
        wallet@.reserved == wallet.reserved@,
        wallet.spend_secret matches Some(secret) ==> wallet@.spend_secret == Some(secret@),
        wallet.spend_secret is None <==> wallet@.spend_secret is None,
        wallet.keys matches Some(receiver) ==> wallet@.keys == Some(receiver@),
        wallet.keys is None <==> wallet@.keys is None,
{
}

/// A new wallet has its network and nothing else, a wallet has keys once it has addresses, and
/// what it can spend is worth the sum of its free coins, where that can be held.
pub proof fn wallets_tell_what_they_have(
    network: Network,
    new: Wallet,
    wallet: Wallet,
    has_keys: bool,
    value: Option<Sats>,
)
    ensures
        call_ensures(Wallet::new, (network,), new) ==> new.network == network && new.utxos@.len()
            == 0 && new.scan_height == 0 && new.spend_secret is None && new.keys is None
            && forall|o: OutPoint| !#[trigger] new.reserved@.contains(o),
        call_ensures(Wallet::has_keys, (&wallet,), has_keys) ==> (has_keys <==> wallet.keys is Some),
        call_ensures(Wallet::spendable_value, (&wallet,), value) ==> {
            &&& value is Some <==> coins::total_value(
                spendable_coins(wallet.utxos@, wallet.reserved@),
            ) <= 0xFFFF_FFFF_FFFF_FFFF
            &&& value matches Some(sum) ==> sum.sat == coins::total_value(
                spendable_coins(wallet.utxos@, wallet.reserved@),
            )
        },
{
    if call_ensures(Wallet::new, (network,), new) {
        assert(new@.utxos == Seq::<(OutPoint, CoinView)>::empty());
        assert(new@.reserved == Set::<OutPoint>::empty());
        assert(new@.spend_secret is None);
        assert(new@.keys is None);
    }
}

/// A receiver hands out each of its two addresses as that which it is.
pub proof fn receivers_hand_out_their_addresses(
    scan_secret: SecretKey,
    spend_key: PublicKey,
    network: Network,
    built: Result<Receiver, String>,
    receiver: Receiver,
    receiving: SilentPaymentAddress,
    change: SilentPaymentAddress,
)
    requires
        call_ensures(build_receiver, (&scan_secret, spend_key, network), built),
        built == Ok::<Receiver, String>(receiver),
        call_ensures(Receiver::get_receiving_address, (&receiver,), receiving),
        call_ensures(Receiver::get_change_address, (&receiver,), change),
    ensures
        receiving@.scan_pubkey == secp::public_key_of(scan_secret@),
        receiving@.spend_pubkey == spend_key@,
        receiving@.network == network,
        silent_payments::change_address(
            0,
            secp::public_key_of(scan_secret@),
            spend_key@,
            silent_payments::label_scalar(scan_secret@, 0),
            network,
        ) == Ok::<SilentPaymentAddressView, Seq<char>>(change@),
{
}

/// A wallet that took a keys file with a spend secret signs its payments with it: each input is
/// one of the coins that were free before the import, signed by that secret with the coin's own
/// tweak added.
pub proof fn imported_secrets_sign(
    wallet: WalletView,
    file: KeysFileView,
    secret: Seq<u8>,
    recipient: RecipientView,
    amount: u64,
    rate: u64,
    tx: TransactionView,
)
    requires
        file.spend == SpendKeyView::Secret(secret),
        wallet.import_file(file) is Ok,
        wallet.import_file(file)->Ok_0.pays(recipient, amount, rate, Ok(tx)),
    ensures
        exists|order: Seq<int>|
            #![trigger coins::is_draw(amount as nat, rate as nat, wallet.spendable(), order)]
            {
                let drawn = coins::chosen(wallet.spendable(), order);
                &&& coins::is_draw(amount as nat, rate as nat, wallet.spendable(), order)
                &&& tx.input.len() == order.len()
                &&& forall|i: int|
                    0 <= i < order.len() ==> (#[trigger] tx.input[i]).previous_output
                        == wallet.spendable()[order[i]].outpoint && tx.input[i].witness[0]
                        == secp::schnorr_signature(
                        transaction::key_spend_sighash(
                            tx.version,
                            tx.lock_time,
                            transaction::spends(tx.input),
                            tx.output,
                            sending::prevouts(drawn),
                            i as nat,
                        ),
                        secp::tweaked_key(secret, wallet.spendable()[order[i]].coin.tweak),
                    )
            },
{
    let after = wallet.import_file(file)->Ok_0;
    keys_files_give_the_wallet_its_keys(wallet, file);
    let list = wallet.spendable();
    assert(after.spendable() == list);
    let change = after.keys->0.change_address;
    let order = choose|order: Seq<int>|
        #![trigger coins::is_draw(amount as nat, rate as nat, list, order)]
        coins::is_draw(amount as nat, rate as nat, list, order) && sending::assembled(
            secret,
            recipient,
            amount,
            after.scan_height,
            change,
            coins::chosen(list, order),
            Ok(tx),
        );
    let drawn = coins::chosen(list, order);
    sending::payment_is_signed(secret, recipient, amount, after.scan_height, change, drawn, tx);
    sending::payment_spends_the_selection(
        secret,
        recipient,
        amount,
        after.scan_height,
        change,
        drawn,
        tx,
    );
    assert(coins::is_draw(amount as nat, rate as nat, list, order));
    assert forall|i: int| 0 <= i < order.len() implies #[trigger] drawn[i] == list[order[i]] by {}
}

} // verus!
