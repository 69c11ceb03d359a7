//! The funding rule and the acceptance of a transfer's answer.
use vstd::prelude::*;
use bitcoincore_rpc::bitcoin::{Address, Network};
use std::str::FromStr;

verus! {

/// Confirmations a coinbase output needs before it can be spent.
pub const COINBASE_MATURITY: u64 = 100;

/// Blocks mined beyond maturity so that the wallet, not only one output,
/// holds a spendable balance.
pub const FUNDING_MARGIN: u64 = 3;

/// The amount sent from the mining wallet to the receiving one, in satoshis
/// (20 bitcoin).
pub const TRANSFER_SATS: i64 = 2_000_000_000;

/// Blocks mined to confirm the transfer.
pub const CONFIRMATION_BLOCKS: u64 = 1;

/// How many blocks the funding stage mines to the mining address.
pub fn funding_block_count() -> (r: u64)
    ensures
        r == COINBASE_MATURITY + FUNDING_MARGIN,
        r > COINBASE_MATURITY,
{
    COINBASE_MATURITY + FUNDING_MARGIN
}

/// Whether the funding stage has done its work: a strictly positive balance
/// in satoshis, after at least maturity plus the margin in blocks.
pub open spec fn funded(balance_sats: int, blocks_mined: int) -> bool {
    balance_sats > 0 && blocks_mined >= COINBASE_MATURITY + FUNDING_MARGIN
}

/// Checks the state after funding: the mining wallet's balance and the number
/// of blocks mined to it.
pub fn funding_ready(balance_sats: i64, blocks_mined: u64) -> (r: bool)
    ensures
        r == funded(balance_sats as int, blocks_mined as int),
{
    balance_sats > 0 && blocks_mined >= COINBASE_MATURITY + FUNDING_MARGIN
}

/// Why a transfer's answer is not accepted.
#[derive(PartialEq, Eq, Structural, Debug, Clone, Copy)]
pub enum TransferError {
    /// The node reports the transaction as not complete.
    Incomplete,
    /// The node answered with an empty transaction id.
    MissingTxid,
}

/// Accepts the answer to a send call: whether the node completed the
/// transaction, and its id. The id is handed back when both hold.
pub fn accept_send(complete: bool, txid: String) -> (r: Result<String, TransferError>)
    ensures
        !complete ==> r == Err::<String, TransferError>(TransferError::Incomplete),
        complete && txid@.len() == 0 ==> r == Err::<String, TransferError>(
            TransferError::MissingTxid,
        ),
        complete && txid@.len() > 0 ==> (r matches Ok(t) && t@ == txid@),
{
    if !complete {
        Err(TransferError::Incomplete)
    } else if txid.as_str().unicode_len() == 0 {
        Err(TransferError::MissingTxid)
    } else {
        Ok(txid)
    }
}

/// Whether `s` is the text of an address that is valid on the regtest
/// network.
pub uninterp spec fn is_regtest_address(s: Seq<char>) -> bool;

/// Relies on bitcoin's `Address::from_str` and
/// `Address::is_valid_for_network(Network::Regtest)`: true exactly when the
/// text parses as an address whose network kind fits regtest, which depends
/// on the text alone.
#[verifier::external_body]
fn regtest_address_check(s: &str) -> (r: bool)
    ensures
        r == is_regtest_address(s@),
{
    match Address::from_str(s) {
        Ok(a) => a.is_valid_for_network(Network::Regtest),
        Err(_) => false,
    }
}

/// Why the funding stage cannot start.
#[derive(PartialEq, Eq, Structural, Debug, Clone, Copy)]
pub enum FundingError {
    /// The address that the mining wallet handed out is not a regtest address.
    NotRegtestAddress,
}

/// Checks the address that the mining wallet handed out before any block is
/// mined to it.
pub fn check_mining_address(text: &str) -> (r: Result<(), FundingError>)
    ensures
        r.is_ok() == is_regtest_address(text@),
        r.is_err() ==> r == Err::<(), FundingError>(FundingError::NotRegtestAddress),
{
    if regtest_address_check(text) {
        Ok(())
    } else {
        Err(FundingError::NotRegtestAddress)
    }
}

}
