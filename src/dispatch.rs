//! The answer of the node's `send` call: `{complete, txid}`.
use vstd::prelude::*;

verus! {

/// Why a payment was not taken.
#[derive(PartialEq, Eq, Structural)]
pub enum SendError {
    /// The node answered that the transaction is not complete.
    Incomplete,
}

/// The transaction id of a `send` answer, which is owed only for a complete
/// transaction.
pub fn accept_send(complete: bool, txid: String) -> (r: Result<String, SendError>)
    ensures
        complete ==> r is Ok && r->Ok_0@ == txid@,
        !complete ==> r == Err::<String, SendError>(SendError::Incomplete),
{
    if complete {
        Ok(txid)
    } else {
        Err(SendError::Incomplete)
    }
}

} // verus!
