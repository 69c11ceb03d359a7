//! Connection settings and the decisions of wallet setup.
use vstd::prelude::*;
use crate::text::{contains_text, occurs_in};

verus! {

/// Where the node listens and how to authenticate to it.
#[derive(Debug)]
pub struct RpcConfig {
    pub url: String,
    pub user: String,
    pub password: String,
}

/// The node-level endpoint of the wallet named `wallet` under `base`.
pub open spec fn wallet_endpoint(base: Seq<char>, wallet: Seq<char>) -> Seq<char> {
    base + "/wallet/"@ + wallet
}

impl RpcConfig {
    /// The settings of a local regtest node with the default port.
    pub fn regtest_default() -> (r: RpcConfig)
        ensures
            r.url@ == "http://127.0.0.1:18443"@,
            r.user@ == "alice"@,
            r.password@ == "password"@,
    {
        RpcConfig {
            url: String::from_str("http://127.0.0.1:18443"),
            user: String::from_str("alice"),
            password: String::from_str("password"),
        }
    }

    /// The URL of the endpoint scoped to one wallet.
    pub fn wallet_url(&self, wallet: &str) -> (r: String)
        ensures
            r@ == wallet_endpoint(self.url@, wallet@),
    {
        let mut r = self.url.clone();
        r.append("/wallet/");
        r.append(wallet);
        r
    }
}

/// The name of the wallet that mines and sends.
pub const MINER_WALLET: &'static str = "Miner";

/// The name of the wallet that receives.
pub const TRADER_WALLET: &'static str = "Trader";

/// What to do after asking the node to create a wallet.
#[derive(PartialEq, Eq, Structural, Debug, Clone, Copy)]
pub enum WalletStep {
    /// The wallet was created and is ready.
    Ready,
    /// It existed already: load it, and go on whatever the load answers.
    LoadExisting,
    /// Creation failed for another reason: stop before anything is mined.
    Abort,
}

/// The text by which the node reports that a wallet of that name exists.
pub open spec fn already_exists_text() -> Seq<char> {
    "already exists"@
}

/// The step owed after a creation call that failed with `error`, or succeeded
/// when there is none.
pub open spec fn step_after_create(error: Option<Seq<char>>) -> WalletStep {
    match error {
        None => WalletStep::Ready,
        Some(msg) => if occurs_in(already_exists_text(), msg) {
            WalletStep::LoadExisting
        } else {
            WalletStep::Abort
        },
    }
}

/// Decides the next step of wallet setup from the error text of the creation
/// call (`None` when it succeeded).
pub fn wallet_step(create_error: Option<&str>) -> (r: WalletStep)
    ensures
        r == step_after_create(
            match create_error {
                Some(m) => Some(m@),
                None => None,
            },
        ),
{
    match create_error {
        None => WalletStep::Ready,
        Some(msg) => {
            if contains_text(msg, "already exists") {
                WalletStep::LoadExisting
            } else {
                WalletStep::Abort
            }
        },
    }
}

}
