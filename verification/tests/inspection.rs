use regtest_payment::CoreError;
use regtest_payment::ErrorKind;
use regtest_payment::address::validated_address;
use regtest_payment::inspect::DecodedTx;
use regtest_payment::inspect::OutPoint;
use regtest_payment::inspect::TxOut;
use regtest_payment::inspect::classify_outputs;
use regtest_payment::inspect::confirming_block;
use regtest_payment::inspect::fee_magnitude_sat;
use regtest_payment::inspect::first_input;
use regtest_payment::inspect::inspect_confirmed;
use regtest_payment::inspect::resolve_funding;
use regtest_payment::render::summary_lines;

fn regtest_address(seed: u8) -> bitcoin::Address {
    let hash = <bitcoin::PubkeyHash as bitcoin::hashes::Hash>::from_byte_array([seed; 20]);
    bitcoin::Address::p2pkh(hash, bitcoin::Network::Regtest)
}

fn script_of(addr: &bitcoin::Address) -> Vec<u8> {
    addr.script_pubkey().into_bytes()
}

#[test]
fn unconfirmed_transaction_is_a_precondition_error() {
    let r = confirming_block(None);
    assert!(matches!(r, Err(CoreError::NotConfirmed)));
    assert_eq!(CoreError::NotConfirmed.kind(), ErrorKind::Precondition);
}

#[test]
fn confirmed_transaction_passes_its_block_hash_through() {
    let r = confirming_block(Some("00ab".to_string()));
    assert_eq!(r.unwrap(), "00ab");
}

#[test]
fn fee_magnitude_defaults_to_zero_and_drops_the_sign() {
    assert_eq!(fee_magnitude_sat(None), 0);
    assert_eq!(fee_magnitude_sat(Some(-1410)), 1410);
    assert_eq!(fee_magnitude_sat(Some(250)), 250);
    assert_eq!(fee_magnitude_sat(Some(i64::MIN)), 9_223_372_036_854_775_808u64);
}

#[test]
fn first_input_requires_an_input() {
    let tx = DecodedTx { inputs: vec![], outputs: vec![] };
    assert!(matches!(first_input(&tx), Err(CoreError::MissingInput)));
    assert_eq!(CoreError::MissingInput.kind(), ErrorKind::Reconstruction);
}

#[test]
fn resolve_funding_rejects_an_out_of_range_index() {
    let prev = vec![TxOut { script_pubkey: script_of(&regtest_address(1)), value_sat: 5 }];
    assert!(matches!(resolve_funding(&prev, 1), Err(CoreError::MissingPreviousOutput)));
    assert_eq!(CoreError::MissingPreviousOutput.kind(), ErrorKind::Reconstruction);
}

#[test]
fn resolve_funding_reconstructs_the_source() {
    let source = regtest_address(1);
    let prev = vec![
        TxOut { script_pubkey: vec![0x6a], value_sat: 1 },
        TxOut { script_pubkey: script_of(&source), value_sat: 5_000_000_000 },
    ];
    let entry = resolve_funding(&prev, 1).unwrap();
    assert_eq!(entry.address.text().as_str(), source.to_string().as_str());
    assert_eq!(entry.amount_sat, 5_000_000_000);
}

#[test]
fn resolve_funding_rejects_a_non_standard_source_script() {
    let prev = vec![TxOut { script_pubkey: vec![0x6a], value_sat: 1 }];
    assert!(matches!(resolve_funding(&prev, 0), Err(CoreError::NonStandardScript)));
    assert_eq!(CoreError::NonStandardScript.kind(), ErrorKind::Reconstruction);
}

#[test]
fn two_outputs_classify_completely_and_disjointly() {
    let trader = regtest_address(2);
    let change = regtest_address(3);
    let recipient = validated_address(trader.to_string()).unwrap();
    let outputs = vec![
        TxOut { script_pubkey: script_of(&trader), value_sat: 2_000_000_000 },
        TxOut { script_pubkey: script_of(&change), value_sat: 999_000_000 },
    ];
    let (recip, chg) = classify_outputs(&outputs, &recipient).unwrap();
    let recip = recip.expect("recipient output set");
    let chg = chg.expect("change output set");
    assert_eq!(recip.address.text().as_str(), trader.to_string().as_str());
    assert_eq!(recip.amount_sat, 2_000_000_000);
    assert_eq!(chg.address.text().as_str(), change.to_string().as_str());
    assert_eq!(chg.amount_sat, 999_000_000);
    assert!(!recip.address.same_as(&chg.address));
}

#[test]
fn classification_order_does_not_lose_the_recipient() {
    let trader = regtest_address(2);
    let change = regtest_address(3);
    let recipient = validated_address(trader.to_string()).unwrap();
    let outputs = vec![
        TxOut { script_pubkey: script_of(&change), value_sat: 999_000_000 },
        TxOut { script_pubkey: script_of(&trader), value_sat: 2_000_000_000 },
    ];
    let (recip, chg) = classify_outputs(&outputs, &recipient).unwrap();
    assert_eq!(recip.unwrap().amount_sat, 2_000_000_000);
    assert_eq!(chg.unwrap().amount_sat, 999_000_000);
}

#[test]
fn later_non_recipient_output_overwrites_earlier_change() {
    let trader = regtest_address(2);
    let recipient = validated_address(trader.to_string()).unwrap();
    let outputs = vec![
        TxOut { script_pubkey: script_of(&regtest_address(3)), value_sat: 10 },
        TxOut { script_pubkey: script_of(&regtest_address(4)), value_sat: 20 },
    ];
    let (recip, chg) = classify_outputs(&outputs, &recipient).unwrap();
    assert!(recip.is_none());
    assert_eq!(chg.unwrap().amount_sat, 20);
}

#[test]
fn single_output_leaves_the_other_class_unset() {
    let trader = regtest_address(2);
    let recipient = validated_address(trader.to_string()).unwrap();
    let outputs = vec![TxOut { script_pubkey: script_of(&trader), value_sat: 7 }];
    let (recip, chg) = classify_outputs(&outputs, &recipient).unwrap();
    assert!(recip.is_some());
    assert!(chg.is_none());
}

#[test]
fn classification_refuses_a_non_standard_output() {
    let trader = regtest_address(2);
    let recipient = validated_address(trader.to_string()).unwrap();
    let outputs = vec![
        TxOut { script_pubkey: script_of(&trader), value_sat: 7 },
        TxOut { script_pubkey: vec![0x6a], value_sat: 0 },
    ];
    assert!(matches!(classify_outputs(&outputs, &recipient), Err(CoreError::NonStandardScript)));
}

#[test]
fn inspect_without_inputs_fails() {
    let trader = regtest_address(2);
    let recipient = validated_address(trader.to_string()).unwrap();
    let tx = DecodedTx { inputs: vec![], outputs: vec![] };
    let r = inspect_confirmed("id".to_string(), "hash".to_string(), 1, None, &tx, &vec![], &recipient);
    assert!(matches!(r, Err(CoreError::MissingInput)));
}

#[test]
fn full_payment_scenario() {
    // Wallets "Miner" and "Trader" on an empty test chain: 101 blocks are
    // generated to the miner, 20 base units go to a fresh trader address,
    // one confirming block follows, and the resulting transaction is
    // inspected at height 102.
    let miner = regtest_address(11);
    let trader = regtest_address(22);
    let miner_change = regtest_address(33);
    let recipient = validated_address(trader.to_string()).unwrap();

    // The mature coinbase output funding the payment: the 50-unit reward.
    let coinbase_outputs = vec![TxOut {
        script_pubkey: script_of(&miner),
        value_sat: 5_000_000_000,
    }];

    let fee_sat: i64 = -1410;
    let tx = DecodedTx {
        inputs: vec![OutPoint { txid: "c0ffee".to_string(), vout: 0 }],
        outputs: vec![
            TxOut { script_pubkey: script_of(&trader), value_sat: 2_000_000_000 },
            TxOut {
                script_pubkey: script_of(&miner_change),
                value_sat: 5_000_000_000 - 2_000_000_000 - 1410,
            },
        ],
    };

    let hash = confirming_block(Some("0f0f".to_string())).unwrap();
    let record = inspect_confirmed(
        "feed".to_string(),
        hash,
        102,
        Some(fee_sat),
        &tx,
        &coinbase_outputs,
        &recipient,
    )
    .unwrap();

    assert_eq!(record.txid, "feed");
    assert_eq!(record.input.address.text().as_str(), miner.to_string().as_str());
    assert_eq!(record.input.amount_sat, 5_000_000_000);
    let recip = record.recipient_output.as_ref().unwrap();
    assert_eq!(recip.address.text().as_str(), trader.to_string().as_str());
    assert_eq!(recip.amount_sat, 2_000_000_000);
    let chg = record.change_output.as_ref().unwrap();
    assert_eq!(chg.address.text().as_str(), miner_change.to_string().as_str());
    assert_eq!(chg.amount_sat, record.input.amount_sat - 2_000_000_000 - record.fee_sat);
    assert!(record.fee_sat > 0);
    assert_eq!(record.fee_sat, 1410);
    assert_eq!(record.block_height, 102);
    assert_eq!(record.block_hash, "0f0f");

    let lines = summary_lines(&record);
    assert_eq!(lines.len(), 10);
    assert_eq!(lines[0], "feed");
    assert_eq!(lines[1], miner.to_string());
    assert_eq!(lines[2], "50");
    assert_eq!(lines[3], trader.to_string());
    assert_eq!(lines[4], "20");
    assert_eq!(lines[5], miner_change.to_string());
    assert_eq!(lines[6], "29.9999859");
    assert_eq!(lines[7], "0.0000141");
    assert_eq!(lines[8], "102");
    assert_eq!(lines[9], "0f0f");
}
