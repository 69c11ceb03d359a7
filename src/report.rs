//! The transfer report: its ten fields, their extraction from the transaction
//! records, and the ten lines of text that record it.
use vstd::prelude::*;
use crate::text::{btc_text, int_text, render_btc, render_int};
use crate::tx::{
    classify_outputs, funding_ref, last_match, resolve_address, resolved_address,
    unknown_text, TxOutput, TxRecord,
};

verus! {

/// The fields of one transfer, amounts in satoshis.
#[derive(Debug)]
pub struct Report {
    pub txid: String,
    pub input_address: String,
    pub input_amount: i64,
    pub recipient_address: String,
    pub recipient_amount: i64,
    pub change_address: String,
    pub change_amount: i64,
    pub fee: i64,
    pub block_height: i64,
    pub block_hash: String,
}

/// What a report holds, as text and integers.
pub struct ReportView {
    pub txid: Seq<char>,
    pub input_address: Seq<char>,
    pub input_amount: int,
    pub recipient_address: Seq<char>,
    pub recipient_amount: int,
    pub change_address: Seq<char>,
    pub change_amount: int,
    pub fee: int,
    pub block_height: int,
    pub block_hash: Seq<char>,
}

impl View for Report {
    type V = ReportView;

    open spec fn view(&self) -> ReportView {
        ReportView {
            txid: self.txid@,
            input_address: self.input_address@,
            input_amount: self.input_amount as int,
            recipient_address: self.recipient_address@,
            recipient_amount: self.recipient_amount as int,
            change_address: self.change_address@,
            change_amount: self.change_amount as int,
            fee: self.fee as int,
            block_height: self.block_height as int,
            block_hash: self.block_hash@,
        }
    }
}

/// The output that the first input of `tx` spends, found in `funding`, the
/// transaction that input names.
pub open spec fn funding_output(tx: TxRecord, funding: Option<TxRecord>) -> Option<TxOutput> {
    match (funding_ref(tx), funding) {
        (Some((_, v)), Some(f)) => if v < f.outputs@.len() {
            Some(f.outputs@[v as int])
        } else {
            None
        },
        _ => None,
    }
}

/// The address of an output that plays a role, or the empty text when no
/// output plays it.
pub open spec fn role_address(outs: Seq<TxOutput>, at: Option<int>) -> Seq<char> {
    match at {
        Some(i) => match outs[i].script_pub_key.address {
            Some(a) => a@,
            None => Seq::empty(),
        },
        None => Seq::empty(),
    }
}

/// The value of an output that plays a role, or zero when no output plays it.
pub open spec fn role_amount(outs: Seq<TxOutput>, at: Option<int>) -> int {
    match at {
        Some(i) => match outs[i].value {
            Some(v) => v as int,
            None => 0,
        },
        None => 0,
    }
}

/// The report of transfer `txid`, recorded as `tx`, whose first input spends
/// an output of `funding`, and which pays `recipient`.
pub open spec fn expected_report(
    txid: Seq<char>,
    tx: TxRecord,
    funding: Option<TxRecord>,
    recipient: Seq<char>,
) -> ReportView {
    let src = funding_output(tx, funding);
    let outs = tx.outputs@;
    let rec = last_match(outs, recipient, true);
    let chg = last_match(outs, recipient, false);
    ReportView {
        txid,
        input_address: match src {
            Some(o) => resolved_address(o.script_pub_key),
            None => unknown_text(),
        },
        input_amount: match src {
            Some(o) => match o.value {
                Some(v) => v as int,
                None => 0,
            },
            None => 0,
        },
        recipient_address: role_address(outs, rec),
        recipient_amount: role_amount(outs, rec),
        change_address: role_address(outs, chg),
        change_amount: role_amount(outs, chg),
        fee: match tx.fee {
            Some(f) => f as int,
            None => 0,
        },
        block_height: match tx.block_height {
            Some(h) => h as int,
            None => 0,
        },
        block_hash: match tx.block_hash {
            Some(h) => h@,
            None => unknown_text(),
        },
    }
}

fn role_fields(outs: &Vec<TxOutput>, at: Option<usize>) -> (r: (String, i64))
    requires
        at matches Some(i) ==> i < outs@.len(),
    ensures
        r.0@ == role_address(
            outs@,
            match at {
                Some(i) => Some(i as int),
                None => None,
            },
        ),
        r.1 as int == role_amount(
            outs@,
            match at {
                Some(i) => Some(i as int),
                None => None,
            },
        ),
{
    match at {
        Some(i) => {
            let o = &outs[i];
            let addr = match &o.script_pub_key.address {
                Some(a) => a.clone(),
                None => String::new(),
            };
            let value = match o.value {
                Some(v) => v,
                None => 0,
            };
            (addr, value)
        },
        None => (String::new(), 0),
    }
}

impl Report {
    /// Extracts the report of transfer `txid` from its record `tx`, from
    /// `funding`, the record of the transaction that the first input of `tx`
    /// spends (`None` when it could not be had), and from the receiving
    /// address `recipient`. Fields that cannot be resolved take their
    /// placeholders: `"unknown"` for the input address and the block hash,
    /// the empty text for a missing recipient or change address, zero for
    /// amounts, the fee and the height.
    pub fn extract(txid: &str, tx: &TxRecord, funding: &Option<TxRecord>, recipient: &str) -> (r:
        Report)
        ensures
            r@ == expected_report(txid@, *tx, *funding, recipient@),
            r.txid@ == txid@,
            r@.fee == (match tx.fee {
                Some(f) => f as int,
                None => 0,
            }),
            r@.block_height == (match tx.block_height {
                Some(h) => h as int,
                None => 0,
            }),
            r@.block_hash == (match tx.block_hash {
                Some(h) => h@,
                None => unknown_text(),
            }),
    {
        let mut input_address = String::from_str("unknown");
        let mut input_amount: i64 = 0;
        if tx.inputs.len() > 0 {
            if let (Some(_), Some(v), Some(f)) = (&tx.inputs[0].txid, tx.inputs[0].vout, funding) {
                if v < f.outputs.len() as u64 {
                    let o = &f.outputs[v as usize];
                    input_address = resolve_address(&o.script_pub_key);
                    input_amount = match o.value {
                        Some(a) => a,
                        None => 0,
                    };
                }
            }
        }
        let roles = classify_outputs(&tx.outputs, recipient);
        let rf = role_fields(&tx.outputs, roles.recipient);
        let cf = role_fields(&tx.outputs, roles.change);
        let recipient_address = rf.0;
        let recipient_amount = rf.1;
        let change_address = cf.0;
        let change_amount = cf.1;
        let fee = match tx.fee {
            Some(f) => f,
            None => 0,
        };
        let block_height = match tx.block_height {
            Some(h) => h,
            None => 0,
        };
        let block_hash = match &tx.block_hash {
            Some(h) => h.clone(),
            None => String::from_str("unknown"),
        };
        Report {
            txid: String::from_str(txid),
            input_address,
            input_amount,
            recipient_address,
            recipient_amount,
            change_address,
            change_amount,
            fee,
            block_height,
            block_hash,
        }
    }
}

/// The ten lines of a report, in order: transaction id, input address,
/// input amount, recipient address, recipient amount, change address, change
/// amount, fee, block height, block hash. Amounts and the fee are written in
/// bitcoin.
pub open spec fn report_lines(v: ReportView) -> Seq<Seq<char>> {
    seq![
        v.txid,
        v.input_address,
        btc_text(v.input_amount),
        v.recipient_address,
        btc_text(v.recipient_amount),
        v.change_address,
        btc_text(v.change_amount),
        btc_text(v.fee),
        int_text(v.block_height),
        v.block_hash,
    ]
}

/// Lines written one after the other, each ended by a newline.
pub open spec fn joined_lines(lines: Seq<Seq<char>>) -> Seq<char>
    decreases lines.len(),
{
    if lines.len() == 0 {
        Seq::empty()
    } else {
        joined_lines(lines.drop_last()) + lines.last() + seq!['\n']
    }
}

/// The number of newline characters in `s`.
pub open spec fn newlines(s: Seq<char>) -> nat
    decreases s.len(),
{
    if s.len() == 0 {
        0
    } else {
        newlines(s.drop_last()) + if s.last() == '\n' {
            1nat
        } else {
            0nat
        }
    }
}

impl Report {
    /// The ten lines of the report, in their fixed order.
    pub fn lines(&self) -> (r: Vec<String>)
        ensures
            r@.len() == 10,
            forall|i: int| 0 <= i < 10 ==> #[trigger] r@[i]@ == report_lines(self@)[i],
    {
        let mut r: Vec<String> = Vec::new();
        r.push(self.txid.clone());
        r.push(self.input_address.clone());
        r.push(render_btc(self.input_amount));
        r.push(self.recipient_address.clone());
        r.push(render_btc(self.recipient_amount));
        r.push(self.change_address.clone());
        r.push(render_btc(self.change_amount));
        r.push(render_btc(self.fee));
        r.push(render_int(self.block_height));
        r.push(self.block_hash.clone());
        r
    }

    /// The report as text: its ten lines, each ended by a newline.
    pub fn to_text(&self) -> (r: String)
        ensures
            r@ == joined_lines(report_lines(self@)),
    {
        let lines = self.lines();
        let ghost all = report_lines(self@);
        let mut out = String::new();
        let mut i: usize = 0;
        while i < lines.len()
            invariant
                lines@.len() == 10,
                all.len() == 10,
                forall|k: int| 0 <= k < 10 ==> #[trigger] lines@[k]@ == all[k],
                i <= 10,
                out@ == joined_lines(all.take(i as int)),
            decreases 10 - i,
        {
            assert(all.take(i + 1).drop_last() =~= all.take(i as int));
            assert(all.take(i + 1).last() == all[i as int]);
            proof {
                reveal_strlit("\n");
            }
            out.append(lines[i].as_str());
            out.append("\n");
            i = i + 1;
        }
        assert(all.take(10) =~= all);
        out
    }
}

}
