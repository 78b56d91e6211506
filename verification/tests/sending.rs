use bitcoin::hashes::Hash as HashBytes;
use bitcoin::secp256k1 as outside;
use bitcoin::sighash::{Prevouts, SighashCache, TapSighashType};
use kernel_wallet::address::{Address, Network, SilentPaymentAddress};
use kernel_wallet::coins::{Coin, SpendableCoin};
use kernel_wallet::keys::{KeyError, Scalar, SecretKey, XOnlyPublicKey};
use kernel_wallet::sending::{
    assemble_transaction, build_transaction, draft_transaction, p2tr_script, sp_output_script,
    DerivedKeys, Recipient, SendError, SIGNATURE_LEN,
};
use kernel_wallet::transaction::{FeeRate, OutPoint, Sats, Transaction, TxOut};
use kernel_wallet::wallet::{build_receiver, Wallet};

fn even_secret(bytes: [u8; 32]) -> SecretKey {
    let secp = outside::Secp256k1::new();
    let key = outside::SecretKey::from_slice(&bytes).unwrap();
    let key = match key.x_only_public_key(&secp).1 {
        outside::Parity::Odd => key.negate(),
        outside::Parity::Even => key,
    };
    SecretKey::from_slice(&key.secret_bytes()).unwrap()
}

fn address(scan: SecretKey, spend: SecretKey) -> SilentPaymentAddress {
    build_receiver(&scan, spend.public_key(), Network::Regtest)
        .unwrap()
        .get_receiving_address()
}

fn owned_coin(spend_secret: &SecretKey, tweak: Scalar, value: Sats) -> Coin {
    let output_key = spend_secret
        .add_tweak(&tweak)
        .unwrap()
        .public_key()
        .x_only_public_key();
    Coin {
        value,
        script_pubkey: p2tr_script(output_key),
        tweak,
        label: None,
        block_height: 1,
        spent_by: None,
    }
}

fn outside_tx(tx: &Transaction) -> bitcoin::Transaction {
    bitcoin::Transaction {
        version: bitcoin::transaction::Version(tx.version),
        lock_time: bitcoin::absolute::LockTime::from_consensus(tx.lock_time),
        input: tx
            .input
            .iter()
            .map(|i| bitcoin::TxIn {
                previous_output: bitcoin::OutPoint {
                    txid: bitcoin::Txid::from_byte_array(i.previous_output.txid),
                    vout: i.previous_output.vout,
                },
                script_sig: bitcoin::ScriptBuf::from_bytes(i.script_sig.clone()),
                sequence: bitcoin::Sequence(i.sequence),
                witness: bitcoin::Witness::from_slice(&i.witness),
            })
            .collect(),
        output: tx.output.iter().map(outside_output).collect(),
    }
}

fn outside_output(output: &TxOut) -> bitcoin::TxOut {
    bitcoin::TxOut {
        value: bitcoin::Amount::from_sat(output.value.to_sat()),
        script_pubkey: bitcoin::ScriptBuf::from_bytes(output.script_pubkey.clone()),
    }
}

fn outside_prevout(coin: &Coin) -> bitcoin::TxOut {
    outside_output(&TxOut {
        value: coin.value,
        script_pubkey: coin.script_pubkey.clone(),
    })
}

fn check_signature(
    tx: &bitcoin::Transaction,
    index: usize,
    prevouts: &[bitcoin::TxOut],
    signing_key: &SecretKey,
) {
    let secp = outside::Secp256k1::new();
    let mut cache = SighashCache::new(tx);
    let sighash = cache
        .taproot_key_spend_signature_hash(index, &Prevouts::All(prevouts), TapSighashType::Default)
        .unwrap();
    let message = outside::Message::from_digest(sighash.to_byte_array());
    let witness = &tx.input[index].witness;
    let sig = outside::schnorr::Signature::from_slice(&witness[0][..64]).unwrap();
    let output_key = outside::XOnlyPublicKey::from_slice(
        &signing_key.public_key().x_only_public_key().serialize(),
    )
    .unwrap();
    secp.verify_schnorr(&sig, &message, &output_key)
        .expect("signature must verify against the output key");
}

#[test]
fn signs_a_spendable_taproot_input() {
    let scan_secret = even_secret([0x01; 32]);
    let spend_secret = even_secret([0x02; 32]);
    let change_address = build_receiver(&scan_secret, spend_secret.public_key(), Network::Regtest)
        .unwrap()
        .get_change_address();

    let recipient = address(even_secret([0x03; 32]), even_secret([0x04; 32]));

    let tweak = Scalar::from_be_bytes([0x05; 32]).unwrap();
    let coin = owned_coin(&spend_secret, tweak, Sats::from_sat(100_000));
    let outpoint = OutPoint {
        txid: [0xab; 32],
        vout: 0,
    };
    let coins = vec![SpendableCoin {
        outpoint,
        coin: &coin,
    }];

    let fee_rate = FeeRate::from_sat_per_vb(2).unwrap();
    let amount = Sats::from_sat(50_000);
    let tx = build_transaction(
        &spend_secret,
        Recipient::SilentPayment(recipient),
        amount,
        fee_rate,
        100,
        change_address,
        &coins,
    )
    .unwrap();

    assert_eq!(
        outside_tx(&tx).lock_time,
        bitcoin::absolute::LockTime::from_height(100).unwrap()
    );
    assert_eq!(tx.input.len(), 1);
    assert_eq!(tx.output.len(), 2);
    assert!(tx.output.iter().any(|o| o.value == amount));

    let paid: u64 = tx.output.iter().map(|o| o.value.to_sat()).sum();
    let fee = coin.value.to_sat().checked_sub(paid).unwrap();
    assert_eq!(fee, 0);

    let tx = outside_tx(&tx);
    check_signature(
        &tx,
        0,
        &[outside_prevout(&coin)],
        &spend_secret.add_tweak(&tweak).unwrap(),
    );
    assert_eq!(tx.input[0].witness.len(), 1);
    assert_eq!(tx.input[0].witness[0].len(), 64);
}

#[test]
fn rejects_amount_over_balance() {
    let spend_secret = even_secret([0x02; 32]);
    let change_address = address(even_secret([0x01; 32]), spend_secret);
    let recipient = address(even_secret([0x03; 32]), even_secret([0x04; 32]));
    let tweak = Scalar::from_be_bytes([0x05; 32]).unwrap();
    let coin = owned_coin(&spend_secret, tweak, Sats::from_sat(10_000));
    let coins = vec![SpendableCoin {
        outpoint: OutPoint {
            txid: [0xab; 32],
            vout: 0,
        },
        coin: &coin,
    }];

    let err = build_transaction(
        &spend_secret,
        Recipient::SilentPayment(recipient),
        Sats::from_sat(20_000),
        FeeRate::from_sat_per_vb(2).unwrap(),
        100,
        change_address,
        &coins,
    )
    .unwrap_err();
    assert!(matches!(err, SendError::NoSpendableCoins));
}

#[test]
fn reserved_coins_are_not_reselected() {
    let scan_secret = even_secret([0x01; 32]);
    let spend_secret = even_secret([0x02; 32]);
    let mut wallet = Wallet::new(Network::Regtest);
    wallet
        .import_signing_keys(scan_secret, spend_secret)
        .unwrap();

    let tweak = Scalar::from_be_bytes([0x05; 32]).unwrap();
    let coin = owned_coin(&spend_secret, tweak, Sats::from_sat(100_000));
    let outpoint = OutPoint {
        txid: [0xab; 32],
        vout: 0,
    };
    wallet.utxos.insert(outpoint, coin);

    let recipient = address(even_secret([0x03; 32]), even_secret([0x04; 32]));
    let fee_rate = FeeRate::from_sat_per_vb(2).unwrap();
    let amount = Sats::from_sat(50_000);

    let tx = wallet
        .build_transaction(Recipient::SilentPayment(recipient), amount, fee_rate)
        .unwrap();
    wallet.reserve_coins(&tx.outpoints());

    let err = wallet
        .build_transaction(Recipient::SilentPayment(recipient), amount, fee_rate)
        .unwrap_err();
    assert!(matches!(err, SendError::NoSpendableCoins));
}

#[test]
fn released_coins_are_selectable_again() {
    let scan_secret = even_secret([0x01; 32]);
    let spend_secret = even_secret([0x02; 32]);
    let mut wallet = Wallet::new(Network::Regtest);
    wallet
        .import_signing_keys(scan_secret, spend_secret)
        .unwrap();

    let tweak = Scalar::from_be_bytes([0x05; 32]).unwrap();
    let coin = owned_coin(&spend_secret, tweak, Sats::from_sat(100_000));
    let outpoint = OutPoint {
        txid: [0xab; 32],
        vout: 0,
    };
    wallet.utxos.insert(outpoint, coin);

    let recipient = address(even_secret([0x03; 32]), even_secret([0x04; 32]));
    let fee_rate = FeeRate::from_sat_per_vb(2).unwrap();
    let amount = Sats::from_sat(50_000);

    let tx = wallet
        .build_transaction(Recipient::SilentPayment(recipient), amount, fee_rate)
        .unwrap();
    let outpoints: Vec<_> = tx.input.iter().map(|i| i.previous_output).collect();

    wallet.reserve_coins(&outpoints);
    assert!(matches!(
        wallet.build_transaction(Recipient::SilentPayment(recipient), amount, fee_rate),
        Err(SendError::NoSpendableCoins)
    ));

    wallet.release_coins(&outpoints);
    assert!(wallet
        .build_transaction(Recipient::SilentPayment(recipient), amount, fee_rate)
        .is_ok());
}

#[test]
fn sends_to_plain_addresses_of_every_type() {
    let scan_secret = even_secret([0x01; 32]);
    let spend_secret = even_secret([0x02; 32]);

    let secp = outside::Secp256k1::new();
    let pubkey =
        outside::PublicKey::from_slice(&even_secret([0x07; 32]).public_key().serialize()).unwrap();
    let xonly = pubkey.x_only_public_key().0;
    let compressed = bitcoin::CompressedPublicKey(pubkey);
    let legacy = bitcoin::PublicKey::new(pubkey);
    let script = bitcoin::ScriptBuf::from_bytes(vec![0x51]);
    let net = bitcoin::Network::Regtest;

    let recipients = [
        ("p2wpkh", bitcoin::Address::p2wpkh(&compressed, net)),
        ("p2wsh", bitcoin::Address::p2wsh(&script, net)),
        ("p2tr", bitcoin::Address::p2tr(&secp, xonly, None, net)),
        ("p2pkh", bitcoin::Address::p2pkh(legacy, net)),
        ("p2sh", bitcoin::Address::p2sh(&script, net).unwrap()),
    ];

    for (kind, addr) in recipients {
        let mut wallet = Wallet::new(Network::Regtest);
        wallet
            .import_signing_keys(scan_secret, spend_secret)
            .unwrap();

        let tweak = Scalar::from_be_bytes([0x05; 32]).unwrap();
        let coin = owned_coin(&spend_secret, tweak, Sats::from_sat(100_000));
        wallet.utxos.insert(
            OutPoint {
                txid: [0xab; 32],
                vout: 0,
            },
            coin,
        );

        let recipient_spk = addr.script_pubkey().into_bytes();
        let amount = Sats::from_sat(50_000);
        let tx = wallet
            .build_transaction(
                Recipient::Address(Address::parse(&addr.to_string()).unwrap()),
                amount,
                FeeRate::from_sat_per_vb(2).unwrap(),
            )
            .unwrap_or_else(|e| panic!("{kind}: {}", e.message()));

        assert_eq!(tx.input.len(), 1, "{kind}");
        assert!(
            tx.output
                .iter()
                .any(|o| o.script_pubkey == recipient_spk && o.value == amount),
            "{kind}: recipient output missing"
        );
        assert!(
            tx.output.iter().any(|o| o.script_pubkey != recipient_spk),
            "{kind}: change output missing"
        );
    }
}

#[test]
fn rejects_empty_wallet() {
    let spend_secret = even_secret([0x02; 32]);
    let change_address = address(even_secret([0x01; 32]), spend_secret);
    let recipient = address(even_secret([0x03; 32]), even_secret([0x04; 32]));
    let err = build_transaction(
        &spend_secret,
        Recipient::SilentPayment(recipient),
        Sats::from_sat(1_000),
        FeeRate::from_sat_per_vb(2).unwrap(),
        100,
        change_address,
        &vec![],
    )
    .unwrap_err();
    assert!(matches!(err, SendError::NoSpendableCoins));
}

fn tweak_of(n: u8) -> Scalar {
    Scalar::from_be_bytes([n; 32]).unwrap()
}

fn outpoint_of(n: u8) -> OutPoint {
    OutPoint {
        txid: [n; 32],
        vout: n as u32,
    }
}

/// A tweak with one byte set. The keys that such tweaks give with a repeated-byte secret do not
/// add up to zero, whatever their signs, so every draw of them can be signed for.
fn lone_byte_tweak(n: u8) -> Scalar {
    let mut bytes = [0u8; 32];
    bytes[3 * n as usize] = 0x7b;
    Scalar::from_be_bytes(bytes).unwrap()
}

#[test]
fn a_payment_conserves_value_and_spends_no_coin_twice() {
    let spend_secret = even_secret([0x02; 32]);
    let change_address = address(even_secret([0x01; 32]), spend_secret);
    let recipient = address(even_secret([0x03; 32]), even_secret([0x04; 32]));
    let owned: Vec<Coin> = (1u8..6)
        .map(|n| owned_coin(&spend_secret, lone_byte_tweak(n), Sats::from_sat(10_000 * n as u64)))
        .collect();
    let coins: Vec<SpendableCoin> = owned
        .iter()
        .zip(1u8..)
        .map(|(coin, n)| SpendableCoin {
            outpoint: outpoint_of(n),
            coin,
        })
        .collect();
    let amount = Sats::from_sat(90_000);
    let tx = build_transaction(
        &spend_secret,
        Recipient::SilentPayment(recipient),
        amount,
        FeeRate::from_sat_per_vb(1).unwrap(),
        7,
        change_address,
        &coins,
    )
    .unwrap();

    let mut spent: Vec<u32> = tx.input.iter().map(|i| i.previous_output.vout).collect();
    let total: u64 = spent.iter().map(|n| 10_000 * *n as u64).sum();
    assert_eq!(tx.output[0].value, amount);
    assert_eq!(tx.output[0].value.to_sat() + tx.output[1].value.to_sat(), total);
    spent.sort();
    let drawn = spent.len();
    spent.dedup();
    assert_eq!(spent.len(), drawn);

    let prevouts: Vec<bitcoin::TxOut> = tx
        .input
        .iter()
        .map(|i| outside_prevout(&owned[i.previous_output.vout as usize - 1]))
        .collect();
    let made = outside_tx(&tx);
    for (index, input) in tx.input.iter().enumerate() {
        let tweak = lone_byte_tweak(input.previous_output.vout as u8);
        assert_eq!(input.witness.len(), 1);
        assert_eq!(input.witness[0].len(), SIGNATURE_LEN);
        check_signature(&made, index, &prevouts, &spend_secret.add_tweak(&tweak).unwrap());
    }
}

#[test]
fn the_recipient_finds_the_output() {
    let secp = outside::Secp256k1::new();
    let spend_secret = even_secret([0x02; 32]);
    let change_address = address(even_secret([0x01; 32]), spend_secret);
    let raw = |key: &SecretKey| outside::SecretKey::from_slice(&key.secret_bytes()).unwrap();
    let (scan, spend) = (even_secret([0x03; 32]), even_secret([0x04; 32]));
    let recipient = address(scan, spend);
    let coin = owned_coin(&spend_secret, tweak_of(5), Sats::from_sat(100_000));
    let coins = vec![SpendableCoin {
        outpoint: outpoint_of(9),
        coin: &coin,
    }];
    let selection: Vec<&SpendableCoin> = coins.iter().collect();
    let tx = assemble_transaction(
        &spend_secret,
        &Recipient::SilentPayment(recipient),
        Sats::from_sat(60_000),
        100,
        change_address,
        &selection,
    )
    .unwrap();

    let signing_key = spend_secret.add_tweak(&tweak_of(5)).unwrap();
    let txid = bitcoin::Txid::from_byte_array([9; 32]).to_string();
    let partial = silentpayments::utils::sending::calculate_partial_secret(
        &[(raw(&signing_key), true)],
        &[(txid, 9)],
    )
    .unwrap();
    let outside_recipient = silentpayments::SilentPaymentAddress::new(
        raw(&scan).public_key(&secp),
        raw(&spend).public_key(&secp),
        silentpayments::Network::Regtest,
        0,
    )
    .unwrap();
    let keys =
        silentpayments::sending::generate_recipient_pubkeys(vec![outside_recipient], partial)
            .unwrap();
    let mut script = vec![0x51, 0x20];
    script.extend_from_slice(&keys[&outside_recipient][0].serialize());
    assert_eq!(tx.output[0].script_pubkey, script);
    assert_eq!(tx.output[0].value.to_sat(), 60_000);
    assert_eq!(tx.output[1].value.to_sat(), 40_000);
    assert_ne!(tx.output[1].script_pubkey, script);
    assert_eq!(tx.input[0].sequence, 0xFFFF_FFFD);
    assert_eq!(tx.version, 2);
    assert!(tx.input[0].script_sig.is_empty());
}

#[test]
fn a_tweak_that_cancels_the_secret_is_refused() {
    let spend_secret = even_secret([0x02; 32]);
    let raw = outside::SecretKey::from_slice(&spend_secret.secret_bytes()).unwrap();
    let tweak = Scalar::from_be_bytes(raw.negate().secret_bytes()).unwrap();
    let coin = Coin {
        value: Sats::from_sat(100_000),
        script_pubkey: vec![],
        tweak,
        label: None,
        block_height: 1,
        spent_by: None,
    };
    let coins = vec![SpendableCoin {
        outpoint: outpoint_of(1),
        coin: &coin,
    }];
    let recipient = address(even_secret([0x03; 32]), even_secret([0x04; 32]));
    let error = build_transaction(
        &spend_secret,
        Recipient::SilentPayment(recipient),
        Sats::from_sat(50_000),
        FeeRate::from_sat_per_vb(1).unwrap(),
        100,
        recipient,
        &coins,
    )
    .unwrap_err();
    assert!(matches!(error, SendError::Secp(KeyError::InvalidTweak)));
    assert!(!error.is_user_error());
    assert_eq!(error.message(), "secp256k1 error: bad tweak");
}

/// The coin that a secret key spends, as one of the wallet's.
fn coin_of(spend_secret: &SecretKey, key: outside::SecretKey) -> Coin {
    let raw = outside::SecretKey::from_slice(&spend_secret.secret_bytes()).unwrap();
    let negated: outside::Scalar = raw.negate().into();
    let tweak = key.add_tweak(&negated).unwrap();
    owned_coin(
        spend_secret,
        Scalar::from_be_bytes(tweak.secret_bytes()).unwrap(),
        Sats::from_sat(10_000),
    )
}

/// Three keys whose points have an even y and add up to none.
fn cancelling_keys() -> [outside::SecretKey; 3] {
    let secp = outside::Secp256k1::new();
    let raw = |n: u8| outside::SecretKey::from_slice(&even_secret([n; 32]).secret_bytes()).unwrap();
    for n in 10u8..100 {
        let (first, second) = (raw(n), raw(n + 1));
        let third = first.add_tweak(&second.into()).unwrap().negate();
        if third.x_only_public_key(&secp).1 == outside::Parity::Even {
            return [first, second, third];
        }
    }
    unreachable!()
}

#[test]
fn keys_that_cancel_each_other_are_refused() {
    let spend_secret = even_secret([0x02; 32]);
    let recipient = address(even_secret([0x03; 32]), even_secret([0x04; 32]));
    let keys = cancelling_keys();
    let owned: Vec<Coin> = keys.iter().map(|key| coin_of(&spend_secret, *key)).collect();
    let coins: Vec<SpendableCoin> = owned
        .iter()
        .zip(1u8..)
        .map(|(coin, n)| SpendableCoin { outpoint: outpoint_of(n), coin })
        .collect();
    let pay = |selection: Vec<&SpendableCoin>| {
        assemble_transaction(
            &spend_secret,
            &Recipient::SilentPayment(recipient),
            Sats::from_sat(10_000),
            100,
            recipient,
            &selection,
        )
    };
    let error = pay(coins.iter().collect()).unwrap_err();
    let outpoints: Vec<(String, u32)> = (1u8..4)
        .map(|n| (bitcoin::Txid::from_byte_array([n; 32]).to_string(), n as u32))
        .collect();
    let input_keys: Vec<(outside::SecretKey, bool)> = keys.iter().map(|k| (*k, true)).collect();
    let expected = silentpayments::utils::sending::calculate_partial_secret(&input_keys, &outpoints)
        .unwrap_err();
    match &error {
        SendError::SilentPayments(text) => assert_eq!(*text, expected.to_string()),
        other => panic!("unexpected {other:?}"),
    }
    assert_eq!(error.message(), format!("silent payments error: {expected}"));
    assert!(!error.is_user_error());

    let tx = pay(coins[..2].iter().collect()).unwrap();
    assert_eq!(tx.output[1].value.to_sat(), 10_000);
}

#[test]
fn nothing_is_derived_for_no_coins() {
    let recipient = address(even_secret([0x03; 32]), even_secret([0x04; 32]));
    let error = assemble_transaction(
        &even_secret([0x02; 32]),
        &Recipient::SilentPayment(recipient),
        Sats::from_sat(0),
        100,
        recipient,
        &vec![],
    )
    .unwrap_err();
    let expected =
        silentpayments::utils::sending::calculate_partial_secret(&[], &[]).unwrap_err();
    match &error {
        SendError::SilentPayments(text) => assert_eq!(*text, expected.to_string()),
        other => panic!("unexpected {other:?}"),
    }
}

#[test]
fn drafts_pay_the_target_and_return_the_rest() {
    let spend_secret = even_secret([0x02; 32]);
    let coin = owned_coin(&spend_secret, tweak_of(5), Sats::from_sat(70_000));
    let coins = vec![SpendableCoin {
        outpoint: outpoint_of(3),
        coin: &coin,
    }];
    let selection: Vec<&SpendableCoin> = coins.iter().collect();
    let tx = draft_transaction(
        vec![1, 2, 3],
        Sats::from_sat(50_000),
        499_999_999,
        vec![4, 5],
        &selection,
    );
    assert_eq!(tx.lock_time, 499_999_999);
    assert_eq!(tx.output.len(), 2);
    assert_eq!(tx.output[0], TxOut { value: Sats::from_sat(50_000), script_pubkey: vec![1, 2, 3] });
    assert_eq!(tx.output[1], TxOut { value: Sats::from_sat(20_000), script_pubkey: vec![4, 5] });
    assert_eq!(tx.input[0].previous_output, outpoint_of(3));
    assert!(tx.input[0].witness.is_empty());

    let late = draft_transaction(
        vec![],
        Sats::from_sat(70_000),
        500_000_000,
        vec![],
        &selection,
    );
    assert_eq!(late.lock_time, 0);
    assert_eq!(late.output[1].value.to_sat(), 0);
}

#[test]
fn output_scripts_pay_the_first_derived_key() {
    let addr = address(even_secret([0x03; 32]), even_secret([0x04; 32]));
    let other = address(even_secret([0x05; 32]), even_secret([0x04; 32]));
    let key = |n: u8| even_secret([n; 32]).public_key().x_only_public_key();
    let mut derived = DerivedKeys::new();
    assert!(matches!(
        sp_output_script(&derived, &addr),
        Err(SendError::OutputDerivation)
    ));
    derived.insert(addr, vec![key(8), key(9)]);
    derived.insert(other, vec![]);
    let mut expected = vec![0x51, 0x20];
    expected.extend_from_slice(&key(8).serialize());
    assert_eq!(sp_output_script(&derived, &addr).unwrap(), expected);
    let error = sp_output_script(&derived, &other).unwrap_err();
    assert!(matches!(error, SendError::OutputDerivation));
    assert!(!error.is_user_error());
    assert_eq!(error.message(), "recipient output key was not derived");
}

#[test]
fn p2tr_scripts_match_those_of_the_bitcoin_library() {
    let key: XOnlyPublicKey = even_secret([0x08; 32]).public_key().x_only_public_key();
    let outside_key = outside::XOnlyPublicKey::from_slice(&key.serialize()).unwrap();
    let script = bitcoin::ScriptBuf::new_p2tr_tweaked(
        bitcoin::key::TweakedPublicKey::dangerous_assume_tweaked(outside_key),
    );
    assert_eq!(p2tr_script(key), script.into_bytes());
}

#[test]
fn recipients_are_read_and_held_to_the_network() {
    let secp = outside::Secp256k1::new();
    let scan = outside::SecretKey::from_slice(&[3; 32]).unwrap().public_key(&secp);
    let spend = outside::SecretKey::from_slice(&[4; 32]).unwrap().public_key(&secp);
    let silent: String = silentpayments::SilentPaymentAddress::new(
        scan,
        spend,
        silentpayments::Network::Regtest,
        0,
    )
    .unwrap()
    .into();
    assert!(matches!(
        Recipient::parse(&silent, Network::Regtest),
        Ok(Recipient::SilentPayment(_))
    ));
    assert!(matches!(
        Recipient::parse(&silent, Network::Mainnet),
        Err(SendError::NetworkMismatch)
    ));

    let plain = "bc1p5cyxnuxmeuwuvkwfem96lqzszd02n6xdcjrs20cac6yqjjwudpxqkedrcr";
    assert!(matches!(
        Recipient::parse(plain, Network::Mainnet),
        Ok(Recipient::Address(_))
    ));
    let error = Recipient::parse(plain, Network::Regtest).unwrap_err();
    assert!(matches!(error, SendError::NetworkMismatch));
    assert!(error.is_user_error());
    assert_eq!(error.message(), "recipient address is for a different network");

    assert!(matches!(
        Recipient::parse(plain, Network::Testnet),
        Err(SendError::NetworkMismatch)
    ));
    // A legacy test address is of all test networks at once, and not of the main one.
    let legacy = "mipcBbFg9gMiCh81Kj8tqqdgoZub1ZJRfn";
    assert!(Recipient::parse(legacy, Network::Testnet).is_ok());
    assert!(Recipient::parse(legacy, Network::Regtest).is_ok());
    assert!(matches!(
        Recipient::parse(legacy, Network::Mainnet),
        Err(SendError::NetworkMismatch)
    ));
    for network in [Network::Mainnet, Network::Testnet, Network::Regtest] {
        let error = Recipient::parse("nobody", network).unwrap_err();
        assert!(matches!(error, SendError::InvalidRecipient(_)));
    }

    let error = Recipient::parse("nobody", Network::Regtest).unwrap_err();
    assert!(error.is_user_error());
    assert!(matches!(error, SendError::InvalidRecipient(_)));
    assert!(error.message().starts_with("invalid recipient address: "));

    let addr = Address::parse(plain).unwrap();
    assert!(Recipient::from_address(addr, true).is_ok());
    let addr = Address::parse(plain).unwrap();
    assert!(matches!(
        Recipient::from_address(addr, false),
        Err(SendError::NetworkMismatch)
    ));
}

#[test]
fn send_errors_say_what_is_wrong() {
    let sats = Sats::from_sat;
    let dust = SendError::DustAmount { amount: sats(100), dust: sats(330) };
    assert_eq!(dust.message(), "amount 100 sats is below the dust limit of 330 sats");
    assert!(dust.is_user_error());
    let short = SendError::InsufficientFunds { needed: sats(5000), available: sats(42) };
    assert_eq!(short.message(), "insufficient funds: need 5000 sats, have 42 sats");
    assert!(short.is_user_error());
    assert_eq!(
        SendError::WatchOnly.message(),
        "wallet is watch-only: no spend secret to sign with"
    );
    assert!(SendError::WatchOnly.is_user_error());
    assert_eq!(SendError::NoSpendableCoins.message(), "no spendable coins");
    assert!(SendError::NoSpendableCoins.is_user_error());
    let sighash = SendError::Sighash("index".to_owned());
    assert_eq!(sighash.message(), "sighash error: index");
    assert!(!sighash.is_user_error());
    assert!(!SendError::SilentPayments(String::new()).is_user_error());
}
