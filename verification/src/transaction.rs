//! Amounts, fee rates and transactions, held as plain values.
use bitcoin::absolute::LockTime;
use bitcoin::hashes::Hash as HashBytes;
use bitcoin::sighash::{Prevouts, SighashCache, TapSighashType};
use bitcoin::transaction::Version;
use bitcoin::{
    Amount, OutPoint as RawOutPoint, Sequence, Transaction as RawTransaction,
    TxIn as RawTxIn, TxOut as RawTxOut, Txid,
};
use vstd::prelude::*;

verus! {

/// A number of satoshis.
#[derive(Debug, Clone, Copy, PartialEq, Eq, PartialOrd, Ord, Hash, Structural)]
pub struct Sats {
    pub sat: u64,
}

impl Sats {
    pub fn from_sat(sat: u64) -> (res: Self)
        ensures
            res.sat == sat,
    {
        Sats { sat }
    }

    pub fn to_sat(&self) -> (res: u64)
        ensures
            res == self.sat,
    {
        self.sat
    }
}

/// A fee rate, in satoshis for a thousand weight units.
#[derive(Debug, Clone, Copy, PartialEq, Eq, PartialOrd, Ord, Hash, Structural)]
pub struct FeeRate {
    pub sat_per_kwu: u64,
}

impl FeeRate {
    /// A virtual byte is four weight units. `None` where the rate is too large to hold.
    pub fn from_sat_per_vb(sat_per_vb: u64) -> (res: Option<Self>)
        ensures
            res is Some <==> sat_per_vb * 250 <= u64::MAX,
            res matches Some(rate) ==> rate.sat_per_kwu == sat_per_vb * 250,
    {
        match sat_per_vb.checked_mul(250) {
            Some(sat_per_kwu) => Some(FeeRate { sat_per_kwu }),
            None => None,
        }
    }
}

/// An output of an earlier transaction.
#[derive(Debug, Clone, Copy, PartialEq, Eq, Hash)]
pub struct OutPoint {
    pub txid: [u8; 32],
    pub vout: u32,
}

impl OutPoint {
    /// Whether both name the same output.
    pub fn same(&self, other: &OutPoint) -> (res: bool)
        ensures
            res == (*self == *other),
    {
        if self.vout != other.vout {
            return false;
        }
        let mut i: usize = 0;
        while i < 32
            invariant
                i <= 32,
                forall|j: int| 0 <= j < i ==> self.txid@[j] == other.txid@[j],
            decreases 32 - i,
        {
            if self.txid[i] != other.txid[i] {
                return false;
            }
            i += 1;
        }
        assert(self.txid =~= other.txid);
        true
    }
}

/// An input: the output that it spends, and what shows the right to spend it.
#[derive(Debug, Clone, PartialEq, Eq)]
pub struct TxIn {
    pub previous_output: OutPoint,
    pub script_sig: Vec<u8>,
    pub sequence: u32,
    pub witness: Vec<Vec<u8>>,
}

/// An input, its byte strings as sequences.
#[verifier::ext_equal]
pub struct TxInView {
    pub previous_output: OutPoint,
    pub script_sig: Seq<u8>,
    pub sequence: u32,
    pub witness: Seq<Seq<u8>>,
}

impl View for TxIn {
    type V = TxInView;

    open spec fn view(&self) -> TxInView {
        TxInView {
            previous_output: self.previous_output,
            script_sig: self.script_sig@,
            sequence: self.sequence,
            witness: Seq::new(self.witness@.len(), |i: int| self.witness@[i]@),
        }
    }
}

/// An output: an amount, and the script that a spender has to satisfy.
#[derive(Debug, Clone, PartialEq, Eq)]
pub struct TxOut {
    pub value: Sats,
    pub script_pubkey: Vec<u8>,
}

/// An output, its script as a sequence.
#[verifier::ext_equal]
pub struct TxOutView {
    pub value: u64,
    pub script_pubkey: Seq<u8>,
}

impl View for TxOut {
    type V = TxOutView;

    open spec fn view(&self) -> TxOutView {
        TxOutView { value: self.value.sat, script_pubkey: self.script_pubkey@ }
    }
}

#[derive(Debug, Clone, PartialEq, Eq)]
pub struct Transaction {
    pub version: i32,
    pub lock_time: u32,
    pub input: Vec<TxIn>,
    pub output: Vec<TxOut>,
}

/// A transaction, its lists and byte strings as sequences.
#[verifier::ext_equal]
pub struct TransactionView {
    pub version: i32,
    pub lock_time: u32,
    pub input: Seq<TxInView>,
    pub output: Seq<TxOutView>,
}

pub open spec fn input_views(input: Seq<TxIn>) -> Seq<TxInView> {
    Seq::new(input.len(), |i: int| input[i]@)
}

pub open spec fn output_views(output: Seq<TxOut>) -> Seq<TxOutView> {
    Seq::new(output.len(), |i: int| output[i]@)
}

impl View for Transaction {
    type V = TransactionView;

    open spec fn view(&self) -> TransactionView {
        TransactionView {
            version: self.version,
            lock_time: self.lock_time,
            input: input_views(self.input@),
            output: output_views(self.output@),
        }
    }
}

impl Transaction {
    /// The outputs that the transaction spends.
    pub fn outpoints(&self) -> (res: Vec<OutPoint>)
        ensures
            res@ == Seq::new(self@.input.len(), |i: int| self@.input[i].previous_output),
    {
        let mut outpoints: Vec<OutPoint> = Vec::new();
        let mut i: usize = 0;
        while i < self.input.len()
            invariant
                i <= self.input@.len(),
                outpoints@.len() == i,
                forall|j: int|
                    0 <= j < i ==> #[trigger] outpoints@[j] == self.input@[j].previous_output,
            decreases self.input@.len() - i,
        {
            outpoints.push(self.input[i].previous_output);
            i += 1;
        }
        assert(outpoints@ =~= Seq::new(
            self@.input.len(),
            |i: int| self@.input[i].previous_output,
        ));
        outpoints
    }
}

/// What a key-spend digest covers of an input: the output that it spends and its sequence.
pub open spec fn spends(input: Seq<TxInView>) -> Seq<(OutPoint, u32)> {
    Seq::new(input.len(), |i: int| (input[i].previous_output, input[i].sequence))
}

/// The digest that the key of one input signs: what `taproot_key_spend_signature_hash` computes
/// for the default type, which covers every input and output and all outputs spent.
pub uninterp spec fn key_spend_sighash(
    version: i32,
    lock_time: u32,
    spends: Seq<(OutPoint, u32)>,
    output: Seq<TxOutView>,
    prevouts: Seq<TxOutView>,
    index: nat,
) -> Seq<u8>;

/// Calls `SighashCache::taproot_key_spend_signature_hash` for the default type with the previous
/// outputs of all inputs. It fails only where there is not one for each input. Neither the
/// script nor the witness of an input enters the digest.
#[verifier::external_body]
pub(crate) fn sighash(
    version: i32,
    lock_time: u32,
    input: &Vec<TxIn>,
    output: &Vec<TxOut>,
    prevouts: &Vec<TxOut>,
    index: usize,
) -> (res: [u8; 32])
    requires
        prevouts@.len() == input@.len(),
    ensures
        res@ == key_spend_sighash(
            version,
            lock_time,
            spends(input_views(input@)),
            output_views(output@),
            output_views(prevouts@),
            index as nat,
        ),
{
    let out = |o: &TxOut| RawTxOut {
        value: Amount::from_sat(o.value.sat), script_pubkey: o.script_pubkey.clone().into(),
    };
    let tx = RawTransaction {
        version: Version(version),
        lock_time: LockTime::from_consensus(lock_time),
        input: input.iter().map(|i| RawTxIn {
            previous_output: RawOutPoint::new(Txid::from_byte_array(i.previous_output.txid), i.previous_output.vout),
            sequence: Sequence(i.sequence), ..Default::default()
        }).collect(),
        output: output.iter().map(out).collect(),
    };
    let all = prevouts.iter().map(out).collect::<Vec<_>>();
    SighashCache::new(&tx).taproot_key_spend_signature_hash(index, &Prevouts::All(&all), TapSighashType::Default).unwrap().to_byte_array()
}

/// The views of a transaction show all of it, in order, and a digest covers of each input the
/// output that it spends and its sequence.
pub proof fn transaction_views_show_transactions(tx: Transaction)
    ensures
        tx@.version == tx.version,
        tx@.lock_time == tx.lock_time,
        tx@.input.len() == tx.input@.len(),
        tx@.output.len() == tx.output@.len(),
        forall|i: int|
            0 <= i < tx.input@.len() ==> {
                let view = #[trigger] tx@.input[i];
                &&& view.previous_output == tx.input@[i].previous_output
                &&& view.script_sig == tx.input@[i].script_sig@
                &&& view.sequence == tx.input@[i].sequence
                &&& view.witness.len() == tx.input@[i].witness@.len()
                &&& forall|j: int|
                    0 <= j < view.witness.len() ==> #[trigger] view.witness[j]
                        == tx.input@[i].witness@[j]@
            },
        forall|i: int|
            0 <= i < tx.output@.len() ==> (#[trigger] tx@.output[i]).value
                == tx.output@[i].value.sat && tx@.output[i].script_pubkey
                == tx.output@[i].script_pubkey@,
        spends(tx@.input).len() == tx.input@.len(),
        forall|i: int|
            0 <= i < tx.input@.len() ==> #[trigger] spends(tx@.input)[i] == (
                tx.input@[i].previous_output,
                tx.input@[i].sequence,
            ),
{
}

/// An amount is the satoshis that it was made of. What a thousand virtual bytes cost, four
/// thousand weight units do, where that can be held. Outputs are the same where their transactions
/// and their places are.
pub proof fn amounts_rates_and_outputs(
    amount: u64,
    sats: Sats,
    back: u64,
    rate: Option<FeeRate>,
    first: OutPoint,
    second: OutPoint,
    same: bool,
)
    ensures
        call_ensures(Sats::from_sat, (amount,), sats) && call_ensures(Sats::to_sat, (&sats,), back)
            ==> back == amount,
        call_ensures(FeeRate::from_sat_per_vb, (amount,), rate) ==> (rate is Some <==> 1000 * amount
            <= 4 * 0xFFFF_FFFF_FFFF_FFFF) && (rate matches Some(rate) ==> 4 * rate.sat_per_kwu
            == 1000 * amount),
        call_ensures(OutPoint::same, (&first, &second), same) ==> (same <==> first.txid@
            == second.txid@ && first.vout == second.vout),
{
    if first.txid@ == second.txid@ {
        assert(first.txid =~= second.txid);
    }
}

/// The outputs that a transaction spends are those of its inputs, in their order.
pub proof fn outputs_spent_are_listed_in_order(tx: Transaction, outpoints: Vec<OutPoint>)
    requires
        call_ensures(Transaction::outpoints, (&tx,), outpoints),
    ensures
        outpoints@.len() == tx.input@.len(),
        forall|i: int|
            0 <= i < tx.input@.len() ==> #[trigger] outpoints@[i] == tx.input@[i].previous_output,
{
    let listed = Seq::new(tx@.input.len(), |i: int| tx@.input[i].previous_output);
    assert(outpoints@ == listed);
    assert forall|i: int| 0 <= i < tx.input@.len() implies #[trigger] outpoints@[i]
        == tx.input@[i].previous_output by {
        assert(tx@.input[i] == tx.input@[i]@);
    }
}

} // verus!
