use regtest_reconcile::reconcile::{
    compute_fee, output_address, output_amount, reconcile, spent_outpoint, BlockInfo,
    RawTransaction, TxInput, TxOutput,
};
use regtest_reconcile::report::{report_lines, report_text};

fn out(addr: &str, sat: u64) -> TxOutput {
    TxOutput { address: Some(addr.to_string()), value_sat: Some(sat) }
}

fn payment(outputs: Vec<TxOutput>) -> RawTransaction {
    RawTransaction {
        txid: Some("aa11".to_string()),
        vin: vec![TxInput { txid: Some("cb01".to_string()), vout: Some(0) }],
        vout: outputs,
    }
}

fn coinbase() -> RawTransaction {
    RawTransaction {
        txid: Some("cb01".to_string()),
        vin: vec![TxInput { txid: None, vout: None }],
        vout: vec![out("bcrt1qminer", 5_000_000_000)],
    }
}

fn block() -> BlockInfo {
    BlockInfo { hash: Some("00ff".to_string()), height: Some(102) }
}

#[test]
fn fixture_with_change() {
    let tx = payment(vec![out("bcrt1qtrader", 2_000_000_000), out("bcrt1qchange", 2_999_990_000)]);
    let r = reconcile(&tx, &coinbase(), &block());
    assert_eq!(r.txid, "aa11");
    assert_eq!(r.input_address, "bcrt1qminer");
    assert_eq!(r.input_amount_sat, 5_000_000_000);
    assert_eq!(r.output_address, "bcrt1qtrader");
    assert_eq!(r.output_amount_sat, 2_000_000_000);
    assert_eq!(r.change_address, "bcrt1qchange");
    assert_eq!(r.change_amount_sat, 2_999_990_000);
    assert_eq!(r.fee_sat, 10_000);
    assert_eq!(r.block_height, 102);
    assert_eq!(r.block_hash, "00ff");
    let lines = report_lines(&r);
    assert_eq!(lines[7], "0.0001");
    assert_eq!(
        report_text(&r),
        "aa11\nbcrt1qminer\n50\nbcrt1qtrader\n20\nbcrt1qchange\n29.9999\n0.0001\n102\n00ff\n"
    );
}

#[test]
fn no_change_output() {
    let tx = payment(vec![out("bcrt1qtrader", 2_000_000_000)]);
    let r = reconcile(&tx, &coinbase(), &block());
    assert_eq!(r.change_address, "");
    assert_eq!(r.change_amount_sat, 0);
    assert_eq!(r.fee_sat, 3_000_000_000);
    assert_eq!(report_lines(&r).len(), 10);
}

#[test]
fn spent_output_is_followed_by_index() {
    let mut tx = payment(vec![out("bcrt1qtrader", 100)]);
    tx.vin[0].vout = Some(1);
    let prev = RawTransaction {
        txid: Some("cb01".to_string()),
        vin: vec![],
        vout: vec![out("first", 7), out("second", 900)],
    };
    assert_eq!(spent_outpoint(&tx), ("cb01".to_string(), 1));
    let r = reconcile(&tx, &prev, &block());
    assert_eq!(r.input_address, "second");
    assert_eq!(r.input_amount_sat, 900);
    assert_eq!(r.fee_sat, 800);
}

#[test]
fn missing_fields_default() {
    let tx = RawTransaction { txid: None, vin: vec![], vout: vec![TxOutput { address: None, value_sat: None }] };
    let prev = RawTransaction { txid: None, vin: vec![], vout: vec![] };
    let b = BlockInfo { hash: None, height: None };
    assert_eq!(spent_outpoint(&tx), (String::new(), 0));
    assert_eq!(output_address(&tx, 0), "");
    assert_eq!(output_amount(&tx, 0), 0);
    assert_eq!(output_amount(&tx, 5), 0);
    let r = reconcile(&tx, &prev, &b);
    assert_eq!(r.txid, "");
    assert_eq!(r.input_amount_sat, 0);
    assert_eq!(r.fee_sat, 0);
    assert_eq!(r.block_height, 0);
    assert_eq!(r.block_hash, "");
    assert_eq!(report_text(&r), "\n\n0\n\n0\n\n0\n0\n0\n\n");
}

#[test]
fn fee_is_exact_in_satoshis() {
    assert_eq!(compute_fee(5_000_000_000, 2_000_000_000, 2_999_990_000), 10_000);
    assert_eq!(compute_fee(5_000_000_000, 2_000_000_000, 0), 3_000_000_000);
    assert_eq!(compute_fee(0, 100, 0), -100);
    assert_eq!(compute_fee(0, u64::MAX, u64::MAX), -2 * (u64::MAX as i128));
}

#[test]
fn negative_fee_line() {
    let tx = payment(vec![out("bcrt1qtrader", 100)]);
    let prev = RawTransaction { txid: None, vin: vec![], vout: vec![] };
    let r = reconcile(&tx, &prev, &block());
    assert_eq!(r.fee_sat, -100);
    assert_eq!(report_lines(&r)[7], "-0.000001");
}

#[test]
fn report_shape_is_stable_across_runs() {
    let a = reconcile(&payment(vec![out("x", 1)]), &coinbase(), &block());
    let tx = payment(vec![out("bcrt1qtrader", 2_000_000_000), out("c", 5)]);
    let b = reconcile(&tx, &coinbase(), &BlockInfo { hash: Some("77".to_string()), height: Some(5000) });
    let la = report_lines(&a);
    let lb = report_lines(&b);
    assert_eq!(la.len(), 10);
    assert_eq!(lb.len(), 10);
    assert_eq!(report_text(&a).matches('\n').count(), 10);
    assert_eq!(report_text(&b).matches('\n').count(), 10);
    assert_eq!(la[0], "aa11");
    assert_eq!(lb[8], "5000");
    assert_eq!(lb[9], "77");
}
