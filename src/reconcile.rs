//! The fields of a confirmed payment, read from its decoded transaction, the
//! transaction that funded its first input, and the block that confirmed it.
//! A field that is absent reads as the empty text or as zero.
use vstd::prelude::*;

verus! {

/// One input of a decoded transaction: the coordinate of the output it spends.
pub struct TxInput {
    pub txid: Option<String>,
    pub vout: Option<u64>,
}

/// One output of a decoded transaction.
pub struct TxOutput {
    pub address: Option<String>,
    pub value_sat: Option<u64>,
}

/// A decoded transaction, inputs and outputs in their order.
pub struct RawTransaction {
    pub txid: Option<String>,
    pub vin: Vec<TxInput>,
    pub vout: Vec<TxOutput>,
}

/// The metadata of a block.
pub struct BlockInfo {
    pub hash: Option<String>,
    pub height: Option<u64>,
}

/// The flat record of a confirmed payment.
pub struct Reconciliation {
    pub txid: String,
    pub input_address: String,
    pub input_amount_sat: u64,
    pub output_address: String,
    pub output_amount_sat: u64,
    pub change_address: String,
    pub change_amount_sat: u64,
    pub fee_sat: i128,
    pub block_height: u64,
    pub block_hash: String,
}

/// A text field, or the empty text where it is absent.
pub open spec fn text_or_empty(o: Option<String>) -> Seq<char> {
    match o {
        Some(s) => s@,
        None => seq![],
    }
}

/// A number field, or zero where it is absent.
pub open spec fn number_or_zero(o: Option<u64>) -> u64 {
    match o {
        Some(n) => n,
        None => 0,
    }
}

/// The address of output `i`, empty where the output or its address is absent.
pub open spec fn output_address_spec(tx: RawTransaction, i: int) -> Seq<char> {
    if 0 <= i < tx.vout@.len() {
        text_or_empty(tx.vout@[i].address)
    } else {
        seq![]
    }
}

/// The amount of output `i`, zero where the output or its amount is absent.
pub open spec fn output_amount_spec(tx: RawTransaction, i: int) -> u64 {
    if 0 <= i < tx.vout@.len() {
        number_or_zero(tx.vout@[i].value_sat)
    } else {
        0
    }
}

/// The transaction id spent by the first input, empty where absent.
pub open spec fn spent_txid_spec(tx: RawTransaction) -> Seq<char> {
    if tx.vin@.len() > 0 {
        text_or_empty(tx.vin@[0].txid)
    } else {
        seq![]
    }
}

/// The output index spent by the first input, zero where absent.
pub open spec fn spent_index_spec(tx: RawTransaction) -> u64 {
    if tx.vin@.len() > 0 {
        number_or_zero(tx.vin@[0].vout)
    } else {
        0
    }
}

/// The fee: what the input brought less what the two outputs take.
pub open spec fn fee_spec(input: u64, payee: u64, change: u64) -> int {
    input - payee - change
}

fn text_or_empty_of(o: &Option<String>) -> (r: String)
    ensures
        r@ == text_or_empty(*o),
{
    match o {
        Some(s) => s.clone(),
        None => String::new(),
    }
}

fn number_or_zero_of(o: &Option<u64>) -> (r: u64)
    ensures
        r == number_or_zero(*o),
{
    match o {
        Some(n) => *n,
        None => 0,
    }
}

/// The address of output `i` of `tx`, or the empty text.
pub fn output_address(tx: &RawTransaction, i: u64) -> (r: String)
    ensures
        r@ == output_address_spec(*tx, i as int),
{
    if (i as u128) < (tx.vout.len() as u128) {
        text_or_empty_of(&tx.vout[i as usize].address)
    } else {
        String::new()
    }
}

/// The amount in satoshis of output `i` of `tx`, or zero.
pub fn output_amount(tx: &RawTransaction, i: u64) -> (r: u64)
    ensures
        r == output_amount_spec(*tx, i as int),
{
    if (i as u128) < (tx.vout.len() as u128) {
        number_or_zero_of(&tx.vout[i as usize].value_sat)
    } else {
        0
    }
}

/// The coordinate (transaction id, output index) that the first input of `tx`
/// spends: the transaction to look up for the input's address and amount.
pub fn spent_outpoint(tx: &RawTransaction) -> (r: (String, u64))
    ensures
        r.0@ == spent_txid_spec(*tx),
        r.1 == spent_index_spec(*tx),
{
    if tx.vin.len() > 0 {
        (text_or_empty_of(&tx.vin[0].txid), number_or_zero_of(&tx.vin[0].vout))
    } else {
        (String::new(), 0)
    }
}

/// The fee in satoshis, exact: `input - payee - change`.
pub fn compute_fee(input: u64, payee: u64, change: u64) -> (r: i128)
    ensures
        r == fee_spec(input, payee, change),
{
    input as i128 - payee as i128 - change as i128
}

/// The record of a payment `tx`, whose first input spends an output of
/// `prev`, confirmed in `block`. The payee is output 0, the change output 1.
pub open spec fn reconcile_spec(
    tx: RawTransaction,
    prev: RawTransaction,
    block: BlockInfo,
    r: Reconciliation,
) -> bool {
    let spent = spent_index_spec(tx) as int;
    &&& r.txid@ == text_or_empty(tx.txid)
    &&& r.input_address@ == output_address_spec(prev, spent)
    &&& r.input_amount_sat == output_amount_spec(prev, spent)
    &&& r.output_address@ == output_address_spec(tx, 0)
    &&& r.output_amount_sat == output_amount_spec(tx, 0)
    &&& r.change_address@ == output_address_spec(tx, 1)
    &&& r.change_amount_sat == output_amount_spec(tx, 1)
    &&& r.fee_sat == fee_spec(r.input_amount_sat, r.output_amount_sat, r.change_amount_sat)
    &&& r.block_height == number_or_zero(block.height)
    &&& r.block_hash@ == text_or_empty(block.hash)
}

/// Reconciles the payment `tx`. `prev` is the transaction named by
/// `spent_outpoint(tx)`, and `block` the block that confirmed `tx`.
pub fn reconcile(tx: &RawTransaction, prev: &RawTransaction, block: &BlockInfo) -> (r:
    Reconciliation)
    ensures
        reconcile_spec(*tx, *prev, *block, r),
        r.fee_sat > i128::MIN,
{
    let (_, spent) = spent_outpoint(tx);
    let input_amount_sat = output_amount(prev, spent);
    let output_amount_sat = output_amount(tx, 0);
    let change_amount_sat = output_amount(tx, 1);
    Reconciliation {
        txid: text_or_empty_of(&tx.txid),
        input_address: output_address(prev, spent),
        input_amount_sat,
        output_address: output_address(tx, 0),
        output_amount_sat,
        change_address: output_address(tx, 1),
        change_amount_sat,
        fee_sat: compute_fee(input_amount_sat, output_amount_sat, change_amount_sat),
        block_height: number_or_zero_of(&block.height),
        block_hash: text_or_empty_of(&block.hash),
    }
}

} // verus!
