use bitcoin::secp256k1 as outside;
use silentpayments::receiving::{Label, Receiver};
use kernel_wallet::address::Network;
use kernel_wallet::coins::Coin;
use kernel_wallet::keys::{Scalar, SecretKey};
use kernel_wallet::keys_file::{SilentPaymentKeysFile, SpendKey};
use kernel_wallet::sending::{Recipient, SendError};
use kernel_wallet::transaction::{FeeRate, OutPoint, Sats};
use kernel_wallet::wallet::{build_receiver, CoinMap, OutPointSet, Wallet};

fn secret(n: u8) -> SecretKey {
    SecretKey::from_slice(&[n; 32]).unwrap()
}

fn outpoint(n: u8) -> OutPoint {
    OutPoint { txid: [n; 32], vout: 1 }
}

fn coin(value: u64, spent: bool) -> Coin {
    Coin {
        value: Sats::from_sat(value),
        script_pubkey: vec![0x51],
        tweak: Scalar::from_be_bytes([5; 32]).unwrap(),
        label: None,
        block_height: 3,
        spent_by: if spent { Some([7; 32]) } else { None },
    }
}

fn recipient() -> Recipient {
    let receiver = build_receiver(&secret(3), secret(4).public_key(), Network::Regtest).unwrap();
    Recipient::SilentPayment(receiver.get_receiving_address())
}

fn pay(wallet: &Wallet, sats: u64) -> Result<Vec<OutPoint>, SendError> {
    wallet
        .build_transaction(recipient(), Sats::from_sat(sats), FeeRate::from_sat_per_vb(1).unwrap())
        .map(|tx| tx.outpoints())
}

#[test]
fn change_goes_to_the_address_of_label_zero() {
    let secp = outside::Secp256k1::new();
    let raw = |n: u8| outside::SecretKey::from_slice(&[n; 32]).unwrap();
    let receiver = Receiver::new(
        0,
        raw(1).public_key(&secp),
        raw(2).public_key(&secp),
        Label::new(raw(1), 0),
        silentpayments::Network::Testnet,
    )
    .unwrap();
    let built = build_receiver(&secret(1), secret(2).public_key(), Network::Testnet).unwrap();
    let change: String = receiver.get_change_address().into();
    let receiving: String = receiver.get_receiving_address().into();
    let parse = |text: &str| kernel_wallet::address::SilentPaymentAddress::parse(text).unwrap();
    assert_eq!(built.get_change_address(), parse(&change));
    assert_eq!(built.get_receiving_address(), parse(&receiving));
    assert_ne!(built.get_change_address(), built.get_receiving_address());
}

#[test]
fn watch_only_wallets_do_not_send() {
    let mut wallet = Wallet::new(Network::Regtest);
    wallet.utxos.insert(outpoint(1), coin(100_000, false));
    assert!(!wallet.has_keys());
    assert!(matches!(pay(&wallet, 1_000), Err(SendError::WatchOnly)));

    let spend = secret(2).public_key().x_only_public_key();
    let file = SilentPaymentKeysFile::new(secret(1), SpendKey::XOnlyPublic(spend));
    wallet.import_keys_file(&file).unwrap();
    assert!(wallet.has_keys());
    assert!(matches!(pay(&wallet, 1_000), Err(SendError::WatchOnly)));

    let file = SilentPaymentKeysFile::new(secret(1), SpendKey::Secret(secret(2)));
    wallet.import_keys_file(&file).unwrap();
    assert_eq!(pay(&wallet, 1_000).unwrap(), vec![outpoint(1)]);

    wallet.import_keys(secret(1), spend).unwrap();
    assert!(matches!(pay(&wallet, 1_000), Err(SendError::WatchOnly)));
}

#[test]
fn spent_and_reserved_coins_stay_out() {
    let mut wallet = Wallet::new(Network::Regtest);
    wallet.import_signing_keys(secret(1), secret(2)).unwrap();
    wallet.utxos.insert(outpoint(1), coin(10_000, false));
    wallet.utxos.insert(outpoint(2), coin(20_000, true));
    wallet.utxos.insert(outpoint(3), coin(40_000, false));
    assert_eq!(wallet.spendable_value(), Some(Sats::from_sat(50_000)));
    wallet.reserve_coins(&vec![outpoint(3)]);
    assert_eq!(wallet.spendable_value(), Some(Sats::from_sat(10_000)));
    assert!(matches!(pay(&wallet, 20_000), Err(SendError::NoSpendableCoins)));
    assert_eq!(pay(&wallet, 5_000).unwrap(), vec![outpoint(1)]);
    wallet.release_coins(&vec![outpoint(3)]);
    assert_eq!(pay(&wallet, 20_000).unwrap().last(), Some(&outpoint(3)));
    assert_eq!(wallet.spendable_coins().len(), 2);
}

#[test]
fn a_failed_broadcast_frees_its_coins() {
    let mut wallet = Wallet::new(Network::Regtest);
    wallet.import_signing_keys(secret(1), secret(2)).unwrap();
    wallet.utxos.insert(outpoint(1), coin(10_000, false));
    let rate = FeeRate::from_sat_per_vb(1).unwrap();
    let tx = wallet.build_transaction(recipient(), Sats::from_sat(1_000), rate).unwrap();
    wallet.reserve_coins(&tx.outpoints());
    wallet.settle_broadcast(&tx, true);
    assert!(matches!(pay(&wallet, 1_000), Err(SendError::NoSpendableCoins)));
    wallet.settle_broadcast(&tx, false);
    assert!(pay(&wallet, 1_000).is_ok());
}

#[test]
fn coins_that_cannot_be_counted_have_no_total() {
    let mut wallet = Wallet::new(Network::Regtest);
    wallet.utxos.insert(outpoint(1), coin(u64::MAX, false));
    assert_eq!(wallet.spendable_value(), Some(Sats::from_sat(u64::MAX)));
    wallet.utxos.insert(outpoint(2), coin(1, false));
    assert_eq!(wallet.spendable_value(), None);
}

#[test]
fn a_coin_takes_the_place_of_the_same_output() {
    let mut coins = CoinMap::new();
    coins.insert(outpoint(1), coin(1, false));
    coins.insert(outpoint(2), coin(2, false));
    coins.insert(outpoint(1), coin(3, false));
    assert_eq!(coins.len(), 2);
    assert_eq!(coins.entry(0), (outpoint(1), &coin(3, false)));
    assert_eq!(coins.entry(1), (outpoint(2), &coin(2, false)));
}

#[test]
fn all_of_a_coin_is_kept() {
    let labelled = Coin {
        label: Some(Scalar::from_be_bytes([6; 32]).unwrap()),
        block_height: 812_000,
        ..coin(9, true)
    };
    let mut coins = CoinMap::new();
    coins.insert(outpoint(1), coin(1, false));
    coins.insert(outpoint(1), labelled.clone());
    assert_eq!(coins.entry(0), (outpoint(1), &labelled));
}

#[test]
fn sets_of_outputs_hold_what_was_put_in() {
    let mut set = OutPointSet::new();
    assert!(!set.contains(&outpoint(1)));
    set.insert(outpoint(1));
    set.insert(outpoint(1));
    set.insert(outpoint(2));
    assert!(set.contains(&outpoint(1)));
    set.remove(&outpoint(1));
    assert!(!set.contains(&outpoint(1)));
    assert!(set.contains(&outpoint(2)));
    assert!(!set.contains(&OutPoint { txid: [2; 32], vout: 2 }));
}
