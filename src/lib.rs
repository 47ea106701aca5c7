//! Reconciliation of a regtest payment: satoshi amounts and their text form,
//! extraction of the fields of a confirmed transaction, the fee, the ten-line
//! report, and the decisions of the mining and wallet set-up loops.
pub mod amount;
pub mod dispatch;
pub mod mining;
pub mod reconcile;
pub mod report;
pub mod wallet;
