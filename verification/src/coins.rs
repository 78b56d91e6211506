//! Coins that the wallet owns, and the draw that picks some of them to spend.
use crate::keys::Scalar;
use crate::transaction::{FeeRate, OutPoint, Sats};
use bitcoin_coin_selection::{single_random_draw, WeightedUtxo};
use vstd::prelude::*;

verus! {

/// An output that the wallet can spend, and the tweak that turns its spend secret into the key
/// of the output. `label` is that of the address that was paid, `block_height` that of the block
/// that has the output, and `spent_by` names the transaction that has spent it.
#[derive(Debug, Clone, PartialEq, Eq)]
pub struct Coin {
    pub value: Sats,
    pub script_pubkey: Vec<u8>,
    pub tweak: Scalar,
    pub label: Option<Scalar>,
    pub block_height: u32,
    pub spent_by: Option<[u8; 32]>,
}

/// A coin, its byte strings as sequences.
#[verifier::ext_equal]
pub struct CoinView {
    pub value: u64,
    pub script_pubkey: Seq<u8>,
    pub tweak: Seq<u8>,
    pub label: Option<Seq<u8>>,
    pub block_height: u32,
    pub spent_by: Option<Seq<u8>>,
}

impl View for Coin {
    type V = CoinView;

    open spec fn view(&self) -> CoinView {
        CoinView {
            value: self.value.sat,
            script_pubkey: self.script_pubkey@,
            tweak: self.tweak@,
            label: match self.label {
                Some(label) => Some(label@),
                None => None,
            },
            block_height: self.block_height,
            spent_by: match self.spent_by {
                Some(txid) => Some(txid@),
                None => None,
            },
        }
    }
}

/// A coin with the output that it is.
#[derive(Debug, Clone, Copy)]
pub struct SpendableCoin<'a> {
    pub outpoint: OutPoint,
    pub coin: &'a Coin,
}

/// A coin with the output that it is, its byte strings as sequences.
#[verifier::ext_equal]
pub struct SpendableView {
    pub outpoint: OutPoint,
    pub coin: CoinView,
}

impl<'a> View for SpendableCoin<'a> {
    type V = SpendableView;

    open spec fn view(&self) -> SpendableView {
        SpendableView { outpoint: self.outpoint, coin: self.coin@ }
    }
}

pub open spec fn spendable_views(coins: Seq<SpendableCoin<'_>>) -> Seq<SpendableView> {
    Seq::new(coins.len(), |i: int| coins[i]@)
}

/// The weight of what satisfies a taproot key spend: one for the number of witness items, one
/// for the length of the item, 64 for the signature.
pub const SATISFACTION_WEIGHT: u64 = 66;

/// The weight of an input without its script and witness.
pub const INPUT_BASE_WEIGHT: u64 = 160;

/// The satoshis that can ever exist.
pub const MAX_MONEY: u64 = 2_100_000_000_000_000;

/// The weight type of the `bitcoin` crate.
#[verifier::external_type_specification]
#[verifier::external_body]
pub struct ExWeight(bitcoin::Weight);

/// The amount type of the `bitcoin` crate.
#[verifier::external_type_specification]
#[verifier::external_body]
pub struct ExAmount(bitcoin::Amount);

/// The weight of a number of weight units: what `Weight::from_wu` makes.
pub uninterp spec fn weight_of_units(wu: u64) -> bitcoin::Weight;

/// The amount of a number of satoshis: what `Amount::from_sat` makes.
pub uninterp spec fn amount_of_sats(satoshi: u64) -> bitcoin::Amount;

/// `Weight::from_wu` makes a weight of its number of weight units.
pub assume_specification[ bitcoin::Weight::from_wu ](wu: u64) -> (res: bitcoin::Weight)
    ensures
        res == weight_of_units(wu),
;

/// `Amount::from_sat` makes an amount of its number of satoshis.
pub assume_specification[ bitcoin::Amount::from_sat ](satoshi: u64) -> (res: bitcoin::Amount)
    ensures
        res == amount_of_sats(satoshi),
;

impl WeightedUtxo for SpendableCoin<'_> {
    fn satisfaction_weight(&self) -> (res: bitcoin::Weight)
        ensures
            res == weight_of_units(SATISFACTION_WEIGHT),
    {
        bitcoin::Weight::from_wu(SATISFACTION_WEIGHT)
    }

    fn value(&self) -> (res: bitcoin::Amount)
        ensures
            res == amount_of_sats(self@.coin.value),
    {
        bitcoin::Amount::from_sat(self.coin.value.sat)
    }
}

/// The fee for spending one coin, rounded up.
pub open spec fn spending_fee(rate: nat) -> nat {
    (rate * (SATISFACTION_WEIGHT + INPUT_BASE_WEIGHT) as nat + 999) / 1000
}

/// Whether a coin is worth at least the fee for spending it, and value and fee can be held in
/// the integers that the draw reckons with.
pub open spec fn worth_spending(rate: nat, value: nat) -> bool {
    &&& rate * (SATISFACTION_WEIGHT + INPUT_BASE_WEIGHT) as nat + 999 <= u64::MAX
    &&& value <= i64::MAX
    &&& spending_fee(rate) <= value
}

/// What a coin adds toward the target: its value less the fee for spending it.
pub open spec fn effective_value(rate: nat, value: nat) -> nat {
    if worth_spending(rate, value) {
        (value - spending_fee(rate)) as nat
    } else {
        0
    }
}

/// What coins add toward the target together.
pub open spec fn total_effective(rate: nat, coins: Seq<SpendableView>) -> nat
    decreases coins.len(),
{
    if coins.len() == 0 {
        0
    } else {
        total_effective(rate, coins.drop_last()) + effective_value(
            rate,
            coins.last().coin.value as nat,
        )
    }
}

/// The sum of the values of coins.
pub open spec fn total_value(coins: Seq<SpendableView>) -> nat
    decreases coins.len(),
{
    if coins.len() == 0 {
        0
    } else {
        total_value(coins.drop_last()) + coins.last().coin.value as nat
    }
}

/// The coins at the places that `order` lists, in that order.
pub open spec fn chosen(coins: Seq<SpendableView>, order: Seq<int>) -> Seq<SpendableView> {
    Seq::new(order.len(), |i: int| coins[order[i]])
}

/// Whether drawing coins one by one in this order reaches the target with the last one: each
/// coin is drawn at most once and is worth spending, and without the last the target is missed.
pub open spec fn is_draw(
    target: nat,
    rate: nat,
    coins: Seq<SpendableView>,
    order: Seq<int>,
) -> bool {
    &&& order.len() > 0
    &&& order.no_duplicates()
    &&& forall|i: int|
        0 <= i < order.len() ==> 0 <= #[trigger] order[i] < coins.len() && worth_spending(
            rate,
            coins[order[i]].coin.value as nat,
        )
    &&& total_effective(rate, chosen(coins, order)) >= target
    &&& order.len() > 1 ==> total_effective(rate, chosen(coins, order.drop_last())) < target
}

/// Whether the coins that are worth spending reach the target.
pub open spec fn can_draw(target: nat, rate: nat, coins: Seq<SpendableView>) -> bool {
    &&& target <= MAX_MONEY
    &&& exists|i: int|
        0 <= i < coins.len() && worth_spending(rate, (#[trigger] coins[i]).coin.value as nat)
    &&& total_effective(rate, coins) >= target
}

/// Calls `single_random_draw`, which shuffles the coins and takes those that are worth spending,
/// one by one, until their effective values reach the target. Which coins come out rests on
/// chance. Whether enough are there to reach the target, and that the last one taken was needed
/// to reach it, does not.
#[verifier::external_body]
pub(crate) fn random_draw<'a>(
    target: Sats,
    fee_rate: FeeRate,
    coins: &'a Vec<SpendableCoin<'a>>,
) -> (res: Option<Vec<&'a SpendableCoin<'a>>>)
    requires
        coins@.len() <= u32::MAX,
    ensures
        res is Some <==> can_draw(
            target.sat as nat,
            fee_rate.sat_per_kwu as nat,
            spendable_views(coins@),
        ),
        res matches Some(picked) ==> exists|order: Seq<int>|
            #[trigger] is_draw(
                target.sat as nat,
                fee_rate.sat_per_kwu as nat,
                spendable_views(coins@),
                order,
            ) && picked_views(picked@) == chosen(spendable_views(coins@), order),
{
    let target = bitcoin::Amount::from_sat(target.sat);
    let fee_rate = bitcoin::FeeRate::from_sat_per_kwu(fee_rate.sat_per_kwu);
    single_random_draw(target, fee_rate, coins).map(|(_, picked)| picked)
}

pub open spec fn picked_views(coins: Seq<&SpendableCoin<'_>>) -> Seq<SpendableView> {
    Seq::new(coins.len(), |i: int| coins[i]@)
}

/// The fee for spending a coin is that of 226 weight units, rounded up to whole satoshis. A coin
/// counts for its value less the fee, and for nothing where that is below zero or cannot be held.
pub proof fn coins_count_less_the_fee(rate: nat, value: nat)
    ensures
        226 * rate <= 1000 * spending_fee(rate) < 226 * rate + 1000,
        worth_spending(rate, value) <==> 226 * rate + 999 <= 0xFFFF_FFFF_FFFF_FFFF && value
            <= 0x7FFF_FFFF_FFFF_FFFF && spending_fee(rate) <= value,
        worth_spending(rate, value) ==> effective_value(rate, value) + spending_fee(rate) == value,
        !worth_spending(rate, value) ==> effective_value(rate, value) == 0,
{
    let weight = (SATISFACTION_WEIGHT + INPUT_BASE_WEIGHT) as nat;
    assert(weight == 226);
    assert(rate * weight == 226 * rate) by (nonlinear_arith)
        requires
            weight == 226,
    ;
}

/// What coins are worth, and what they count for, adds up.
pub proof fn totals_add_up(rate: nat, coins: Seq<SpendableView>, more: Seq<SpendableView>)
    ensures
        total_value(coins + more) == total_value(coins) + total_value(more),
        total_effective(rate, coins + more) == total_effective(rate, coins) + total_effective(
            rate,
            more,
        ),
        more.len() == 1 ==> total_value(more) == more[0].coin.value && total_effective(rate, more)
            == effective_value(rate, more[0].coin.value as nat),
    decreases more.len(),
{
    if more.len() > 0 {
        totals_add_up(rate, coins, more.drop_last());
        assert((coins + more).drop_last() =~= coins + more.drop_last());
        assert(more.len() == 1 ==> more.drop_last() =~= seq![]);
    } else {
        assert(coins + more =~= coins);
    }
}

/// Choosing keeps the order that is asked for, and the coins as they are; so does seeing coins
/// through their views.
pub proof fn choosing_picks_by_place(
    coins: Seq<SpendableView>,
    order: Seq<int>,
    list: Seq<SpendableCoin<'_>>,
    picked: Seq<&SpendableCoin<'_>>,
)
    ensures
        chosen(coins, order).len() == order.len(),
        forall|i: int| 0 <= i < order.len() ==> #[trigger] chosen(coins, order)[i]
            == coins[order[i]],
        spendable_views(list).len() == list.len(),
        forall|i: int| 0 <= i < list.len() ==> (#[trigger] spendable_views(list)[i]).outpoint
            == list[i].outpoint && spendable_views(list)[i].coin == list[i].coin@,
        picked_views(picked).len() == picked.len(),
        forall|i: int| 0 <= i < picked.len() ==> (#[trigger] picked_views(picked)[i]).outpoint
            == picked[i].outpoint && picked_views(picked)[i].coin == picked[i].coin@,
{
}

/// The view of a coin shows all of it.
pub proof fn coin_views_show_coins(coin: Coin)
    ensures
        coin@.value == coin.value.sat,
        coin@.script_pubkey == coin.script_pubkey@,
        coin@.tweak == coin.tweak@,
        coin@.block_height == coin.block_height,
        coin.label matches Some(label) ==> coin@.label == Some(label@),
        coin.label is None <==> coin@.label is None,
        coin.spent_by matches Some(txid) ==> coin@.spent_by == Some(txid@),
        coin.spent_by is None <==> coin@.spent_by is None,
{
}

/// Taking the value of one coin away takes what it counts for from the total.
proof fn effective_without(rate: nat, coins: Seq<SpendableView>, k: int, empty: SpendableView)
    requires
        0 <= k < coins.len(),
        empty.coin.value == 0,
    ensures
        total_effective(rate, coins) == total_effective(rate, coins.update(k, empty))
            + effective_value(rate, coins[k].coin.value as nat),
    decreases coins.len(),
{
    let less = coins.update(k, empty);
    assert(effective_value(rate, 0) == 0);
    if k < coins.len() - 1 {
        effective_without(rate, coins.drop_last(), k, empty);
        assert(less.drop_last() =~= coins.drop_last().update(k, empty));
    } else {
        assert(less.drop_last() =~= coins.drop_last());
    }
}

/// Coins chosen once each count for no more than all.
proof fn chosen_count_at_most_all(rate: nat, coins: Seq<SpendableView>, order: Seq<int>)
    requires
        order.no_duplicates(),
        forall|i: int| 0 <= i < order.len() ==> 0 <= #[trigger] order[i] < coins.len(),
    ensures
        total_effective(rate, chosen(coins, order)) <= total_effective(rate, coins),
    decreases order.len(),
{
    if order.len() > 0 {
        let k = order.last();
        let empty = SpendableView { coin: CoinView { value: 0, ..coins[k].coin }, ..coins[k] };
        let less = coins.update(k, empty);
        let fewer = order.drop_last();
        effective_without(rate, coins, k, empty);
        assert(order[order.len() - 1] == k);
        chosen_count_at_most_all(rate, less, fewer);
        assert(chosen(coins, order).drop_last() =~= chosen(less, fewer));
    }
}

/// The places of the coins that are worth spending.
spec fn worth_places(rate: nat, coins: Seq<SpendableView>) -> Seq<int>
    decreases coins.len(),
{
    if coins.len() == 0 {
        seq![]
    } else if worth_spending(rate, coins.last().coin.value as nat) {
        worth_places(rate, coins.drop_last()).push(coins.len() - 1)
    } else {
        worth_places(rate, coins.drop_last())
    }
}

/// The coins that are worth spending count for as much as all.
proof fn worth_places_count_for_all(rate: nat, coins: Seq<SpendableView>)
    ensures
        worth_places(rate, coins).no_duplicates(),
        forall|i: int|
            0 <= i < worth_places(rate, coins).len() ==> 0 <= #[trigger] worth_places(
                rate,
                coins,
            )[i] < coins.len() && worth_spending(
                rate,
                coins[worth_places(rate, coins)[i]].coin.value as nat,
            ),
        forall|k: int|
            0 <= k < coins.len() && worth_spending(rate, (#[trigger] coins[k]).coin.value as nat)
                ==> worth_places(rate, coins).len() > 0,
        total_effective(rate, chosen(coins, worth_places(rate, coins))) == total_effective(
            rate,
            coins,
        ),
    decreases coins.len(),
{
    let places = worth_places(rate, coins);
    if coins.len() > 0 {
        let front = coins.drop_last();
        let rest = worth_places(rate, front);
        worth_places_count_for_all(rate, front);
        assert forall|i: int| 0 <= i < places.len() implies 0 <= #[trigger] places[i] < coins.len()
            && worth_spending(rate, coins[places[i]].coin.value as nat) by {
            if i < rest.len() {
                assert(places[i] == rest[i]);
                assert(front[rest[i]] == coins[rest[i]]);
            }
        }
        assert forall|k: int|
            0 <= k < coins.len() && worth_spending(
                rate,
                (#[trigger] coins[k]).coin.value as nat,
            ) implies places.len() > 0 by {
            if k < front.len() {
                assert(front[k] == coins[k]);
            }
        }
        assert(chosen(coins, rest) =~= chosen(front, rest)) by {
            assert forall|i: int| 0 <= i < rest.len() implies coins[rest[i]] == front[rest[i]] by {}
        }
        if worth_spending(rate, coins.last().coin.value as nat) {
            assert(chosen(coins, places).drop_last() =~= chosen(coins, rest));
            assert(chosen(coins, places).last() == coins.last());
        }
    } else {
        assert(chosen(coins, places) =~= coins);
    }
}

/// Coins in an order that reach the target start with a draw.
proof fn enough_coins_start_with_a_draw(
    target: nat,
    rate: nat,
    coins: Seq<SpendableView>,
    order: Seq<int>,
)
    requires
        order.len() > 0,
        order.no_duplicates(),
        forall|i: int|
            0 <= i < order.len() ==> 0 <= #[trigger] order[i] < coins.len() && worth_spending(
                rate,
                coins[order[i]].coin.value as nat,
            ),
        total_effective(rate, chosen(coins, order)) >= target,
    ensures
        exists|draw: Seq<int>| #[trigger] is_draw(target, rate, coins, draw),
    decreases order.len(),
{
    let fewer = order.drop_last();
    if order.len() > 1 && total_effective(rate, chosen(coins, fewer)) >= target {
        assert forall|i: int| 0 <= i < fewer.len() implies 0 <= #[trigger] fewer[i] < coins.len()
            && worth_spending(rate, coins[fewer[i]].coin.value as nat) by {
            assert(fewer[i] == order[i]);
        }
        enough_coins_start_with_a_draw(target, rate, coins, fewer);
    } else {
        assert(is_draw(target, rate, coins, order));
    }
}

/// Coins can be drawn exactly where some draw of them reaches the target, which is no more than
/// can ever exist; and where a target can be drawn, so can a smaller one.
pub proof fn can_draw_where_a_draw_is(
    target: nat,
    smaller: nat,
    rate: nat,
    coins: Seq<SpendableView>,
)
    ensures
        can_draw(target, rate, coins) <==> target <= 2_100_000_000_000_000 && exists|
            order: Seq<int>,
        | #[trigger]
            is_draw(target, rate, coins, order),
        can_draw(target, rate, coins) && smaller <= target ==> can_draw(smaller, rate, coins),
{
    let places = worth_places(rate, coins);
    worth_places_count_for_all(rate, coins);
    if can_draw(target, rate, coins) {
        enough_coins_start_with_a_draw(target, rate, coins, places);
    }
    if target <= 2_100_000_000_000_000 && exists|order: Seq<int>| #[trigger]
        is_draw(target, rate, coins, order) {
        let order = choose|order: Seq<int>| #[trigger] is_draw(target, rate, coins, order);
        chosen_count_at_most_all(rate, coins, order);
        assert(worth_spending(rate, coins[order[0]].coin.value as nat));
    }
}

/// What a draw is: different coins, each worth its fee, that reach the target together and would
/// not without the last.
pub proof fn draws_reach_the_target(
    target: nat,
    rate: nat,
    coins: Seq<SpendableView>,
    order: Seq<int>,
)
    ensures
        is_draw(target, rate, coins, order) <==> {
            &&& order.len() > 0
            &&& forall|i: int, j: int|
                0 <= i < j < order.len() ==> #[trigger] order[i] != #[trigger] order[j]
            &&& forall|i: int|
                0 <= i < order.len() ==> 0 <= #[trigger] order[i] < coins.len() && worth_spending(
                    rate,
                    coins[order[i]].coin.value as nat,
                )
            &&& total_effective(rate, chosen(coins, order)) >= target
            &&& order.len() > 1 ==> total_effective(rate, chosen(coins, order.take(order.len() - 1)))
                < target
        },
{
    if order.len() > 0 {
        assert(order.take(order.len() - 1) =~= order.drop_last());
    }
}

} // verus!
