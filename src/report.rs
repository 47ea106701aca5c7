//! The report of a reconciled payment: ten lines in a fixed order, each ended
//! by a newline, to be read by line number.
use vstd::prelude::*;
use crate::amount::{
    btc_text, decimal_digits, digit_char, format_btc, format_signed_btc, fraction_digits,
    padded_digits, push_char, signed_btc_text, SAT_PER_BTC,
};
use crate::reconcile::{
    fee_spec, output_amount_spec, reconcile_spec, spent_index_spec, BlockInfo, RawTransaction,
    Reconciliation,
};

verus! {

/// Lines in a report.
pub const REPORT_LINES: usize = 10;

/// The report's lines: txid, input address, input amount, output address,
/// output amount, change address, change amount, fee, block height, block hash.
pub open spec fn report_lines_spec(r: Reconciliation) -> Seq<Seq<char>> {
    seq![
        r.txid@,
        r.input_address@,
        btc_text(r.input_amount_sat as nat),
        r.output_address@,
        btc_text(r.output_amount_sat as nat),
        r.change_address@,
        btc_text(r.change_amount_sat as nat),
        signed_btc_text(r.fee_sat as int),
        decimal_digits(r.block_height as nat),
        r.block_hash@,
    ]
}

/// Lines joined into one text, each followed by a newline.
pub open spec fn lines_text(lines: Seq<Seq<char>>) -> Seq<char>
    decreases lines.len(),
{
    if lines.len() == 0 {
        seq![]
    } else {
        lines_text(lines.drop_last()) + lines.last() + seq!['\n']
    }
}

/// The whole text of the report.
pub open spec fn report_text_spec(r: Reconciliation) -> Seq<char> {
    lines_text(report_lines_spec(r))
}

/// The fee's magnitude fits an `i128`, as that of every fee `reconcile` gives does.
pub open spec fn fee_in_range(r: Reconciliation) -> bool {
    r.fee_sat > i128::MIN
}

/// The ten lines of the report of `r`.
pub fn report_lines(r: &Reconciliation) -> (lines: Vec<String>)
    requires
        fee_in_range(*r),
    ensures
        lines@.len() == REPORT_LINES,
        forall|i: int| 0 <= i < REPORT_LINES ==> #[trigger] lines@[i]@ == report_lines_spec(*r)[i],
{
    let mut height = String::new();
    crate::amount::push_decimal(&mut height, r.block_height as u128);
    let lines = vec![
        r.txid.clone(),
        r.input_address.clone(),
        format_btc(r.input_amount_sat as u128),
        r.output_address.clone(),
        format_btc(r.output_amount_sat as u128),
        r.change_address.clone(),
        format_btc(r.change_amount_sat as u128),
        format_signed_btc(r.fee_sat),
        height,
        r.block_hash.clone(),
    ];
    assert(height@ =~= decimal_digits(r.block_height as nat));
    lines
}

/// The text of the report of `r`: its ten lines, each ended by a newline.
pub fn report_text(r: &Reconciliation) -> (text: String)
    requires
        fee_in_range(*r),
    ensures
        text@ == report_text_spec(*r),
{
    let lines = report_lines(r);
    let ghost spec_lines = report_lines_spec(*r);
    let mut text = String::new();
    let mut i: usize = 0;
    while i < lines.len()
        invariant
            lines@.len() == REPORT_LINES,
            spec_lines.len() == REPORT_LINES,
            forall|k: int| 0 <= k < REPORT_LINES ==> #[trigger] lines@[k]@ == spec_lines[k],
            i <= lines@.len(),
            text@ == lines_text(spec_lines.take(i as int)),
        decreases lines.len() - i,
    {
        text.append(lines[i].as_str());
        push_char(&mut text, '\n');
        assert(spec_lines.take(i as int + 1).drop_last() =~= spec_lines.take(i as int));
        i = i + 1;
    }
    assert(spec_lines.take(REPORT_LINES as int) =~= spec_lines);
    text
}

/// The fee is exact to the satoshi: the report's fee line is the text of the
/// input amount less the payee and change amounts, with no rounding, and the
/// amount lines are the texts of those amounts.
pub proof fn lemma_report_fee_exact(
    tx: RawTransaction,
    prev: RawTransaction,
    block: BlockInfo,
    r: Reconciliation,
)
    requires
        reconcile_spec(tx, prev, block, r),
    ensures
        ({
            let input = output_amount_spec(prev, spent_index_spec(tx) as int);
            let payee = output_amount_spec(tx, 0);
            let change = output_amount_spec(tx, 1);
            &&& report_lines_spec(r)[2] == btc_text(input as nat)
            &&& report_lines_spec(r)[4] == btc_text(payee as nat)
            &&& report_lines_spec(r)[6] == btc_text(change as nat)
            &&& report_lines_spec(r)[7] == signed_btc_text(fee_spec(input, payee, change))
            &&& fee_spec(input, payee, change) == input - payee - change
        }),
{
}

/// The report's shape does not depend on the payment: any two reports have
/// ten lines each, field by field in the same order.
pub proof fn lemma_report_shape(r1: Reconciliation, r2: Reconciliation)
    ensures
        report_lines_spec(r1).len() == REPORT_LINES,
        report_lines_spec(r2).len() == REPORT_LINES,
        report_lines_spec(r1)[0] == r1.txid@ && report_lines_spec(r2)[0] == r2.txid@,
        report_lines_spec(r1)[9] == r1.block_hash@ && report_lines_spec(r2)[9] == r2.block_hash@,
        report_text_spec(r1) == lines_text(report_lines_spec(r1)),
        report_text_spec(r2) == lines_text(report_lines_spec(r2)),
{
}

/// The text holds no newline.
pub open spec fn no_newline(s: Seq<char>) -> bool {
    forall|i: int| 0 <= i < s.len() ==> s[i] != '\n'
}

/// The number of newlines in a text.
pub open spec fn newline_count(s: Seq<char>) -> nat
    decreases s.len(),
{
    if s.len() == 0 {
        0
    } else {
        newline_count(s.drop_last()) + if s.last() == '\n' { 1nat } else { 0nat }
    }
}

proof fn lemma_newline_count_concat(a: Seq<char>, b: Seq<char>)
    ensures
        newline_count(a + b) == newline_count(a) + newline_count(b),
    decreases b.len(),
{
    if b.len() > 0 {
        assert((a + b).drop_last() =~= a + b.drop_last());
        lemma_newline_count_concat(a, b.drop_last());
    } else {
        assert(a + b =~= a);
    }
}

proof fn lemma_no_newline_count(s: Seq<char>)
    requires
        no_newline(s),
    ensures
        newline_count(s) == 0,
    decreases s.len(),
{
    if s.len() > 0 {
        lemma_no_newline_count(s.drop_last());
    }
}

proof fn lemma_decimal_no_newline(n: nat)
    ensures
        no_newline(decimal_digits(n)),
    decreases n,
{
    if n >= 10 {
        lemma_decimal_no_newline(n / 10);
    }
}

proof fn lemma_padded_no_newline(n: nat, width: nat)
    ensures
        no_newline(padded_digits(n, width)),
    decreases width,
{
    if width > 0 {
        lemma_padded_no_newline(n / 10, (width - 1) as nat);
    }
}

proof fn lemma_fraction_no_newline(n: nat, width: nat)
    ensures
        no_newline(fraction_digits(n, width)),
    decreases width,
{
    if width > 0 && n % 10 == 0 {
        lemma_fraction_no_newline(n / 10, (width - 1) as nat);
    } else {
        lemma_padded_no_newline(n, width);
    }
}

proof fn lemma_amount_no_newline(sat: int)
    ensures
        sat >= 0 ==> no_newline(btc_text(sat as nat)),
        no_newline(signed_btc_text(sat)),
{
    let a: nat = if sat < 0 { (-sat) as nat } else { sat as nat };
    lemma_decimal_no_newline(a / SAT_PER_BTC as nat);
    lemma_fraction_no_newline(a % SAT_PER_BTC as nat, 8);
}

proof fn lemma_lines_text_count(lines: Seq<Seq<char>>)
    requires
        forall|i: int| 0 <= i < lines.len() ==> no_newline(#[trigger] lines[i]),
    ensures
        newline_count(lines_text(lines)) == lines.len(),
    decreases lines.len(),
{
    if lines.len() > 0 {
        let init = lines.drop_last();
        lemma_lines_text_count(init);
        lemma_no_newline_count(lines.last());
        lemma_newline_count_concat(lines_text(init), lines.last());
        lemma_newline_count_concat(lines_text(init) + lines.last(), seq!['\n']);
        let nl: Seq<char> = seq!['\n'];
        assert(nl.drop_last() =~= Seq::<char>::empty());
        assert(newline_count(nl.drop_last()) == 0);
        assert(newline_count(nl) == 1);
        assert(lines_text(lines) == lines_text(init) + lines.last() + nl);
    }
}

/// The report has exactly ten lines whatever its values, defaulted ones
/// included: where its text fields hold no newline, its text holds exactly
/// ten newlines, one after each field.
pub proof fn lemma_report_ten_lines(r: Reconciliation)
    requires
        no_newline(r.txid@),
        no_newline(r.input_address@),
        no_newline(r.output_address@),
        no_newline(r.change_address@),
        no_newline(r.block_hash@),
    ensures
        newline_count(report_text_spec(r)) == REPORT_LINES,
{
    lemma_amount_no_newline(r.input_amount_sat as int);
    lemma_amount_no_newline(r.output_amount_sat as int);
    lemma_amount_no_newline(r.change_amount_sat as int);
    lemma_amount_no_newline(r.fee_sat as int);
    lemma_decimal_no_newline(r.block_height as nat);
    lemma_lines_text_count(report_lines_spec(r));
}

} // verus!
