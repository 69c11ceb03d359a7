use regtest_flow::funding::{
    accept_send, check_mining_address, funding_block_count, FundingError, funding_ready, TransferError, COINBASE_MATURITY,
    FUNDING_MARGIN, TRANSFER_SATS,
};
use regtest_flow::report::Report;
use regtest_flow::session::{wallet_step, RpcConfig, WalletStep};
use regtest_flow::text::{contains_text, render_btc, render_int, same_text};
use regtest_flow::tx::{
    classify_outputs, funding_reference, resolve_address, ScriptPubKey, TxInput, TxOutput,
    TxRecord,
};

const TRADER: &str = "bcrt1qtraderaddress00000000000000000000000";
const MINER_CHANGE: &str = "bcrt1qminerchange000000000000000000000000";
const MINER_FUNDING: &str = "bcrt1qminerfunding00000000000000000000000";
const TXID: &str = "a1b2c3d4e5f60718293a4b5c6d7e8f90a1b2c3d4e5f60718293a4b5c6d7e8f90";
const FUNDING_TXID: &str = "0f1e2d3c4b5a69788796a5b4c3d2e1f00f1e2d3c4b5a69788796a5b4c3d2e1f0";
const BLOCK_HASH: &str = "3b1c6a9e2d4f5a6b7c8d9e0f1a2b3c4d5e6f7a8b9c0d1e2f3a4b5c6d7e8f9a0b";

fn script(address: Option<&str>, text: Option<&str>) -> ScriptPubKey {
    ScriptPubKey {
        address: address.map(|a| a.to_string()),
        script_text: text.map(|t| t.to_string()),
    }
}

fn output(value: Option<i64>, address: Option<&str>) -> TxOutput {
    TxOutput { value, script_pub_key: script(address, None) }
}

fn transfer_record() -> TxRecord {
    TxRecord {
        fee: Some(-1410),
        block_height: Some(104),
        block_hash: Some(BLOCK_HASH.to_string()),
        inputs: vec![TxInput { txid: Some(FUNDING_TXID.to_string()), vout: Some(0) }],
        outputs: vec![
            output(Some(2_000_000_000), Some(TRADER)),
            output(Some(2_999_998_590), Some(MINER_CHANGE)),
        ],
    }
}

fn funding_record() -> TxRecord {
    TxRecord {
        fee: None,
        block_height: Some(1),
        block_hash: None,
        inputs: vec![TxInput { txid: None, vout: None }],
        outputs: vec![output(Some(5_000_000_000), Some(MINER_FUNDING))],
    }
}

fn empty_record() -> TxRecord {
    TxRecord { fee: None, block_height: None, block_hash: None, inputs: vec![], outputs: vec![] }
}

#[test]
fn extraction_copies_record_fields() {
    let r = Report::extract(TXID, &transfer_record(), &Some(funding_record()), TRADER);
    assert!(!r.txid.is_empty());
    assert_eq!(r.txid, TXID);
    assert_eq!(r.fee, -1410);
    assert_eq!(r.block_height, 104);
    assert_eq!(r.block_hash, BLOCK_HASH);
    assert_eq!(r.input_address, MINER_FUNDING);
    assert_eq!(r.input_amount, 5_000_000_000);
}

#[test]
fn already_exists_error_loads_wallet() {
    let msg = "JSON-RPC error: RPC error response: RpcError { code: -4, message: \"Wallet file verification failed. Failed to create database path '/data/regtest/wallets/Miner'. Database already exists.\" }";
    assert_eq!(wallet_step(Some(msg)), WalletStep::LoadExisting);
}

#[test]
fn other_create_error_aborts() {
    let msg = "JSON-RPC error: transport error: Couldn't connect to host";
    assert_eq!(wallet_step(Some(msg)), WalletStep::Abort);
    assert_eq!(wallet_step(Some("already exist")), WalletStep::Abort);
    assert_eq!(wallet_step(Some("")), WalletStep::Abort);
}

#[test]
fn created_wallet_is_ready() {
    assert_eq!(wallet_step(None), WalletStep::Ready);
}

#[test]
fn funding_needs_balance_and_enough_blocks() {
    assert_eq!(funding_block_count(), 103);
    assert_eq!(COINBASE_MATURITY + FUNDING_MARGIN, 103);
    assert!(funding_ready(5_000_000_000, 103));
    assert!(!funding_ready(0, 103));
    assert!(!funding_ready(-1, 200));
    assert!(!funding_ready(5_000_000_000, 102));
    assert!(funding_ready(1, 150));
}

#[test]
fn two_outputs_are_classified() {
    let r = Report::extract(TXID, &transfer_record(), &Some(funding_record()), TRADER);
    assert_eq!(r.recipient_address, TRADER);
    assert_eq!(r.recipient_amount, 2_000_000_000);
    assert_eq!(r.change_address, MINER_CHANGE);
    assert_eq!(r.change_amount, 2_999_998_590);
}

#[test]
fn classification_keeps_last_match_and_skips_incomplete_outputs() {
    let outs = vec![
        output(Some(10), Some(MINER_CHANGE)),
        output(Some(20), Some(TRADER)),
        output(None, Some(TRADER)),
        output(Some(30), None),
        output(Some(40), Some(MINER_FUNDING)),
    ];
    let roles = classify_outputs(&outs, TRADER);
    assert_eq!(roles.recipient, Some(1));
    assert_eq!(roles.change, Some(4));
    let none = classify_outputs(&vec![output(None, None)], TRADER);
    assert_eq!(none.recipient, None);
    assert_eq!(none.change, None);
}

#[test]
fn address_falls_back_to_script_text() {
    let s = script(None, Some("OP_DUP OP_HASH160 abcd OP_EQUALVERIFY OP_CHECKSIG"));
    assert_eq!(resolve_address(&s), "OP_DUP OP_HASH160 abcd OP_EQUALVERIFY OP_CHECKSIG");
    assert_eq!(resolve_address(&script(None, None)), "unknown");
    assert_eq!(resolve_address(&script(Some(TRADER), Some("OP_0 abcd"))), TRADER);
}

#[test]
fn input_address_uses_script_text_of_funding_output() {
    let mut funding = funding_record();
    funding.outputs[0].script_pub_key = script(None, Some("OP_TRUE"));
    let r = Report::extract(TXID, &transfer_record(), &Some(funding), TRADER);
    assert_eq!(r.input_address, "OP_TRUE");
    assert_eq!(r.input_amount, 5_000_000_000);
}

#[test]
fn report_always_has_ten_lines() {
    let r = Report::extract(TXID, &empty_record(), &None, TRADER);
    let lines = r.lines();
    assert_eq!(lines.len(), 10);
    assert_eq!(
        lines,
        vec![TXID, "unknown", "0", "", "0", "", "0", "0", "0", "unknown"]
    );
    let text = r.to_text();
    assert_eq!(text.matches('\n').count(), 10);
    assert!(text.ends_with('\n'));
}

#[test]
fn report_text_in_fixed_order() {
    let r = Report::extract(TXID, &transfer_record(), &Some(funding_record()), TRADER);
    let expected = format!(
        "{TXID}\n{MINER_FUNDING}\n50\n{TRADER}\n20\n{MINER_CHANGE}\n29.9999859\n-0.0000141\n104\n{BLOCK_HASH}\n"
    );
    assert_eq!(r.to_text(), expected);
}

#[test]
fn repeated_extraction_is_identical() {
    let tx = transfer_record();
    let funding = Some(funding_record());
    let a = Report::extract(TXID, &tx, &funding, TRADER);
    let b = Report::extract(TXID, &tx, &funding, TRADER);
    assert_eq!(a.to_text(), b.to_text());
    assert_eq!(a.lines(), b.lines());
}

#[test]
fn missing_funding_falls_back() {
    let mut tx = transfer_record();
    tx.inputs[0].vout = Some(7);
    let r = Report::extract(TXID, &tx, &Some(funding_record()), TRADER);
    assert_eq!(r.input_address, "unknown");
    assert_eq!(r.input_amount, 0);
    let r = Report::extract(TXID, &tx, &None, TRADER);
    assert_eq!(r.input_address, "unknown");
}

#[test]
fn funding_reference_reads_first_input() {
    let p = funding_reference(&transfer_record()).unwrap();
    assert_eq!(p.txid, FUNDING_TXID);
    assert_eq!(p.vout, 0);
    assert!(funding_reference(&empty_record()).is_none());
    assert!(funding_reference(&funding_record()).is_none());
}

#[test]
fn amounts_render_in_bitcoin() {
    assert_eq!(render_btc(TRANSFER_SATS), "20");
    assert_eq!(render_btc(0), "0");
    assert_eq!(render_btc(1), "0.00000001");
    assert_eq!(render_btc(-1410), "-0.0000141");
    assert_eq!(render_btc(4_999_998_590), "49.9999859");
    assert_eq!(render_btc(150_000_000), "1.5");
    assert_eq!(render_btc(i64::MIN), "-92233720368.54775808");
    assert_eq!(render_btc(i64::MAX), "92233720368.54775807");
}

#[test]
fn integers_render_in_decimal() {
    assert_eq!(render_int(0), "0");
    assert_eq!(render_int(104), "104");
    assert_eq!(render_int(-7), "-7");
    assert_eq!(render_int(i64::MIN), "-9223372036854775808");
}

#[test]
fn wallet_urls_extend_the_base() {
    let c = RpcConfig::regtest_default();
    assert_eq!(c.url, "http://127.0.0.1:18443");
    assert_eq!(c.user, "alice");
    assert_eq!(c.password, "password");
    assert_eq!(c.wallet_url("Miner"), "http://127.0.0.1:18443/wallet/Miner");
}

#[test]
fn send_answers_are_checked() {
    assert_eq!(accept_send(true, TXID.to_string()), Ok(TXID.to_string()));
    assert_eq!(accept_send(false, TXID.to_string()), Err(TransferError::Incomplete));
    assert_eq!(accept_send(true, String::new()), Err(TransferError::MissingTxid));
}

#[test]
fn text_comparisons() {
    assert!(contains_text("Database already exists.", "already exists"));
    assert!(!contains_text("already", "already exists"));
    assert!(contains_text("abc", ""));
    assert!(same_text("bcrt1q", "bcrt1q"));
    assert!(!same_text("bcrt1q", "bcrt1p"));
    assert!(!same_text("ab", "abc"));
}

#[test]
fn mining_address_must_fit_regtest() {
    assert_eq!(check_mining_address("bcrt1q2nfxmhd4n3c8834pj72xagvyr9gl57n5r94fsl"), Ok(()));
    assert_eq!(check_mining_address("2N83imGV3gPwBzKJQvWJ7cRUY2SpUyU6A5e"), Ok(()));
    assert_eq!(
        check_mining_address("bc1qvzvkjn4q3nszqxrv3nraga2r822xjty3ykvkuw"),
        Err(FundingError::NotRegtestAddress)
    );
    assert_eq!(check_mining_address("not an address"), Err(FundingError::NotRegtestAddress));
}
