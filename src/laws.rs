//! Properties that hold across the whole workflow, proved over the models of
//! the report and its text.
use vstd::prelude::*;
use crate::report::{expected_report, joined_lines, newlines, report_lines, Report, ReportView};
use crate::text::{
    btc_text, decimal, digit_char, int_text, padded, sign_text, trimmed, BTC_DECIMALS,
    SATS_PER_BTC,
};
use crate::tx::TxRecord;

verus! {

proof fn lemma_newlines_concat(a: Seq<char>, b: Seq<char>)
    ensures
        newlines(a + b) == newlines(a) + newlines(b),
    decreases b.len(),
{
    if b.len() == 0 {
        assert(a + b =~= a);
    } else {
        lemma_newlines_concat(a, b.drop_last());
        assert((a + b).drop_last() =~= a + b.drop_last());
        assert((a + b).last() == b.last());
    }
}

proof fn lemma_newlines_push(a: Seq<char>, c: char)
    requires
        c != '\n',
    ensures
        newlines(a.push(c)) == newlines(a),
{
    assert(a.push(c).drop_last() =~= a);
}

proof fn lemma_decimal_plain(n: nat)
    ensures
        newlines(decimal(n)) == 0,
    decreases n,
{
    if n < 10 {
        lemma_newlines_push(Seq::empty(), digit_char(n));
        assert(seq![digit_char(n)] =~= Seq::<char>::empty().push(digit_char(n)));
    } else {
        lemma_decimal_plain(n / 10);
        lemma_newlines_push(decimal(n / 10), digit_char(n % 10));
    }
}

proof fn lemma_padded_plain(n: nat, k: nat)
    ensures
        newlines(padded(n, k)) == 0,
    decreases k,
{
    if k > 0 {
        lemma_padded_plain(n / 10, (k - 1) as nat);
        lemma_newlines_push(padded(n / 10, (k - 1) as nat), digit_char(n % 10));
    }
}

proof fn lemma_trimmed_plain(n: nat, k: nat)
    ensures
        newlines(trimmed(n, k)) == 0,
    decreases k,
{
    if k > 0 {
        if n % 10 == 0 {
            lemma_trimmed_plain(n / 10, (k - 1) as nat);
        } else {
            lemma_padded_plain(n, k);
        }
    }
}

proof fn lemma_sign_plain(v: int)
    ensures
        newlines(sign_text(v)) == 0,
{
    if v < 0 {
        lemma_newlines_push(Seq::empty(), '-');
        assert(seq!['-'] =~= Seq::<char>::empty().push('-'));
    }
}

proof fn lemma_numbers_plain(v: int)
    ensures
        newlines(int_text(v)) == 0,
        newlines(btc_text(v)) == 0,
{
    lemma_sign_plain(v);
    let m: nat = if v < 0 {
        (-v) as nat
    } else {
        v as nat
    };
    lemma_decimal_plain(m);
    lemma_newlines_concat(sign_text(v), decimal(m));
    let whole = m / (SATS_PER_BTC as nat);
    let frac = m % (SATS_PER_BTC as nat);
    lemma_decimal_plain(whole);
    lemma_newlines_concat(sign_text(v), decimal(whole));
    let tail = if frac == 0 {
        Seq::<char>::empty()
    } else {
        seq!['.'] + trimmed(frac, BTC_DECIMALS as nat)
    };
    if frac != 0 {
        lemma_trimmed_plain(frac, BTC_DECIMALS as nat);
        lemma_newlines_push(Seq::empty(), '.');
        assert(seq!['.'] =~= Seq::<char>::empty().push('.'));
        lemma_newlines_concat(seq!['.'], trimmed(frac, BTC_DECIMALS as nat));
    }
    lemma_newlines_concat(sign_text(v) + decimal(whole), tail);
}

proof fn lemma_joined_newlines(lines: Seq<Seq<char>>)
    requires
        forall|i: int| 0 <= i < lines.len() ==> newlines(#[trigger] lines[i]) == 0,
    ensures
        newlines(joined_lines(lines)) == lines.len(),
    decreases lines.len(),
{
    if lines.len() > 0 {
        let init = lines.drop_last();
        assert forall|i: int| 0 <= i < init.len() implies newlines(#[trigger] init[i]) == 0 by {
            assert(init[i] == lines[i]);
        }
        lemma_joined_newlines(init);
        lemma_newlines_concat(joined_lines(init), lines.last());
        let body = joined_lines(init) + lines.last();
        assert(body.push('\n').drop_last() =~= body);
        assert(body + seq!['\n'] =~= body.push('\n'));
    }
}

/// Whether a text field holds no line break.
pub open spec fn single_line(s: Seq<char>) -> bool {
    newlines(s) == 0
}

/// The report text always has exactly ten lines, in their fixed order,
/// whichever fields fell back to their placeholders: as long as no address,
/// id or hash holds a line break, it holds exactly ten newline characters.
pub proof fn report_has_ten_lines(v: ReportView)
    requires
        single_line(v.txid),
        single_line(v.input_address),
        single_line(v.recipient_address),
        single_line(v.change_address),
        single_line(v.block_hash),
    ensures
        report_lines(v).len() == 10,
        newlines(joined_lines(report_lines(v))) == 10,
{
    lemma_numbers_plain(v.input_amount);
    lemma_numbers_plain(v.recipient_amount);
    lemma_numbers_plain(v.change_amount);
    lemma_numbers_plain(v.fee);
    lemma_numbers_plain(v.block_height);
    lemma_joined_newlines(report_lines(v));
}

/// Extracting twice from the same records, with no new block in between,
/// yields the same report and the same text.
pub proof fn extraction_is_repeatable(
    txid: Seq<char>,
    tx: TxRecord,
    funding: Option<TxRecord>,
    recipient: Seq<char>,
    first: Report,
    second: Report,
)
    requires
        first@ == expected_report(txid, tx, funding, recipient),
        second@ == expected_report(txid, tx, funding, recipient),
    ensures
        first@ == second@,
        joined_lines(report_lines(first@)) == joined_lines(report_lines(second@)),
{
}

}
