//! Typed transaction records as the node reports them, with every field that
//! may be missing held as an `Option`, and the rules that read them.
use vstd::prelude::*;
use crate::text::same_text;

verus! {

/// The locking script of an output: its standard address, when it has one,
/// and its assembly text.
#[derive(Debug)]
pub struct ScriptPubKey {
    pub address: Option<String>,
    pub script_text: Option<String>,
}

/// One output of a decoded transaction; `value` is in satoshis.
#[derive(Debug)]
pub struct TxOutput {
    pub value: Option<i64>,
    pub script_pub_key: ScriptPubKey,
}

/// One input of a decoded transaction: the output it spends.
#[derive(Debug)]
pub struct TxInput {
    pub txid: Option<String>,
    pub vout: Option<u64>,
}

/// A wallet transaction with its decoded form. `fee` is in satoshis and is
/// negative for a payment sent by the wallet.
#[derive(Debug)]
pub struct TxRecord {
    pub fee: Option<i64>,
    pub block_height: Option<i64>,
    pub block_hash: Option<String>,
    pub inputs: Vec<TxInput>,
    pub outputs: Vec<TxOutput>,
}

/// The output of an earlier transaction that an input spends.
#[derive(Debug)]
pub struct OutPoint {
    pub txid: String,
    pub vout: u64,
}

/// The placeholder for an address or hash that cannot be resolved.
pub open spec fn unknown_text() -> Seq<char> {
    "unknown"@
}

/// The address of a script: the structured address, else the assembly text,
/// else the placeholder.
pub open spec fn resolved_address(s: ScriptPubKey) -> Seq<char> {
    match s.address {
        Some(a) => a@,
        None => match s.script_text {
            Some(t) => t@,
            None => unknown_text(),
        },
    }
}

/// Resolves the address of a script: the structured address when present,
/// else the script's assembly text, else `"unknown"`.
pub fn resolve_address(s: &ScriptPubKey) -> (r: String)
    ensures
        r@ == resolved_address(*s),
{
    match &s.address {
        Some(a) => a.clone(),
        None => match &s.script_text {
            Some(t) => t.clone(),
            None => String::from_str("unknown"),
        },
    }
}

/// The transaction id and output index spent by the first input, when the
/// transaction has an input and both are known.
pub open spec fn funding_ref(tx: TxRecord) -> Option<(Seq<char>, u64)> {
    if tx.inputs@.len() > 0 {
        match (tx.inputs@[0].txid, tx.inputs@[0].vout) {
            (Some(t), Some(v)) => Some((t@, v)),
            _ => None,
        }
    } else {
        None
    }
}

/// The output spent by the first input of `tx`.
pub fn funding_reference(tx: &TxRecord) -> (r: Option<OutPoint>)
    ensures
        match funding_ref(*tx) {
            Some((t, v)) => r matches Some(p) && p.txid@ == t && p.vout == v,
            None => r is None,
        },
{
    if tx.inputs.len() == 0 {
        return None;
    }
    let first = &tx.inputs[0];
    match (&first.txid, first.vout) {
        (Some(t), Some(v)) => Some(OutPoint { txid: t.clone(), vout: v }),
        _ => None,
    }
}

/// Whether an output has both a value and an address, and its address is
/// `recipient` (when `to_recipient`) or another one (when not).
pub open spec fn counts_as(o: TxOutput, recipient: Seq<char>, to_recipient: bool) -> bool {
    match (o.value, o.script_pub_key.address) {
        (Some(_), Some(a)) => (a@ == recipient) == to_recipient,
        _ => false,
    }
}

/// The index of the last output that counts as paying `recipient` (or, when
/// not `to_recipient`, as change).
pub open spec fn last_match(outs: Seq<TxOutput>, recipient: Seq<char>, to_recipient: bool) -> Option<int>
    decreases outs.len(),
{
    if outs.len() == 0 {
        None
    } else if counts_as(outs.last(), recipient, to_recipient) {
        Some(outs.len() - 1)
    } else {
        last_match(outs.drop_last(), recipient, to_recipient)
    }
}

/// A matched index lies within the outputs and points at an output of that role.
pub proof fn lemma_last_match_bounds(outs: Seq<TxOutput>, recipient: Seq<char>, to_recipient: bool)
    ensures
        match last_match(outs, recipient, to_recipient) {
            Some(i) => 0 <= i < outs.len() && counts_as(outs[i], recipient, to_recipient),
            None => true,
        },
    decreases outs.len(),
{
    if outs.len() > 0 && !counts_as(outs.last(), recipient, to_recipient) {
        lemma_last_match_bounds(outs.drop_last(), recipient, to_recipient);
    }
}

/// Where the recipient's output and the change output of a transaction
/// stand among its outputs.
#[derive(Debug)]
pub struct OutputRoles {
    pub recipient: Option<usize>,
    pub change: Option<usize>,
}

/// Sorts the outputs into the one paying `recipient` and the change: each is
/// the last output with a value and an address that is (or is not)
/// `recipient`; outputs without a value or an address are skipped.
pub fn classify_outputs(outs: &Vec<TxOutput>, recipient: &str) -> (r: OutputRoles)
    ensures
        r.recipient == (match last_match(outs@, recipient@, true) {
            Some(i) => Some(i as usize),
            None => None::<usize>,
        }),
        r.change == (match last_match(outs@, recipient@, false) {
            Some(i) => Some(i as usize),
            None => None::<usize>,
        }),
        last_match(outs@, recipient@, true) == (match r.recipient {
            Some(i) => Some(i as int),
            None => None::<int>,
        }),
        last_match(outs@, recipient@, false) == (match r.change {
            Some(i) => Some(i as int),
            None => None::<int>,
        }),
        r.recipient matches Some(i) ==> i < outs@.len() && counts_as(outs@[i as int], recipient@, true),
        r.change matches Some(i) ==> i < outs@.len() && counts_as(outs@[i as int], recipient@, false),
{
    let mut rec: Option<usize> = None;
    let mut chg: Option<usize> = None;
    let mut i: usize = 0;
    while i < outs.len()
        invariant
            i <= outs@.len(),
            rec == (match last_match(outs@.take(i as int), recipient@, true) {
                Some(j) => Some(j as usize),
                None => None::<usize>,
            }),
            chg == (match last_match(outs@.take(i as int), recipient@, false) {
                Some(j) => Some(j as usize),
                None => None::<usize>,
            }),
            rec matches Some(j) ==> j < i,
            chg matches Some(j) ==> j < i,
        decreases outs@.len() - i,
    {
        let o = &outs[i];
        assert(outs@.take(i + 1).drop_last() =~= outs@.take(i as int));
        assert(outs@.take(i + 1).last() == outs@[i as int]);
        if let (Some(_), Some(a)) = (o.value, &o.script_pub_key.address) {
            if same_text(a.as_str(), recipient) {
                rec = Some(i);
            } else {
                chg = Some(i);
            }
        }
        i = i + 1;
    }
    assert(outs@.take(outs@.len() as int) =~= outs@);
    proof {
        lemma_last_match_bounds(outs@, recipient@, true);
        lemma_last_match_bounds(outs@, recipient@, false);
        match last_match(outs@, recipient@, true) {
            Some(j) => assert((j as usize) as int == j),
            None => {},
        }
        match last_match(outs@, recipient@, false) {
            Some(j) => assert((j as usize) as int == j),
            None => {},
        }
    }
    OutputRoles { recipient: rec, change: chg }
}

}
