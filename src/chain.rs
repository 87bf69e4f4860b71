//! What the contract endpoint hands back, held as plain values.
use vstd::prelude::*;

verus! {

/// A failure of an operation on the chain.
#[derive(Debug, PartialEq, Eq)]
pub enum ChainError {
    /// Signing, gas or the RPC endpoint refused the transaction before inclusion.
    SubmissionRejected(String),
    /// The transaction was reverted, dropped or timed out after submission.
    ConfirmationFailed(String),
    /// The subscription or the RPC channel ended.
    ConnectionLost(String),
}

/// A submitted transaction, by its hash.
#[derive(Debug, Clone, Copy, PartialEq, Eq)]
pub struct TxHandle {
    pub hash: [u8; 32],
}

/// Proof that a transaction was included in the ledger.
#[derive(Debug, Clone, Copy, PartialEq, Eq)]
pub struct Confirmation {
    pub tx_hash: [u8; 32],
}

/// A correct guess, by the solver's address.
#[derive(Debug, Clone, Copy, PartialEq, Eq)]
pub struct SolvedEvent {
    pub solver: [u8; 20],
}

/// A transaction receipt: the transaction's hash and its status code, where
/// the chain reports one (`0` marks a revert).
#[derive(Debug, Clone, Copy, PartialEq, Eq)]
pub struct Receipt {
    pub tx_hash: [u8; 32],
    pub status: Option<u64>,
}

/// Whether a receipt, if any came, shows the transaction included and not reverted.
pub open spec fn receipt_confirms(receipt: Option<Receipt>) -> bool {
    receipt matches Some(rc) && rc.status != Some(0u64)
}

/// Turns what a confirmation wait returned into a confirmation, or an error
/// when no receipt came (the transaction was dropped) or it shows a revert.
pub fn confirmation_from_receipt(receipt: Option<Receipt>) -> (r: Result<Confirmation, ChainError>)
    ensures
        receipt_confirms(receipt) <==> r is Ok,
        r matches Ok(c) ==> receipt matches Some(rc) && c.tx_hash == rc.tx_hash,
        r matches Err(e) ==> e is ConfirmationFailed,
{
    match receipt {
        None => Err(ChainError::ConfirmationFailed("transaction dropped".to_owned())),
        Some(rc) => {
            match rc.status {
                Some(0u64) => Err(ChainError::ConfirmationFailed("transaction reverted".to_owned())),
                _ => Ok(Confirmation { tx_hash: rc.tx_hash }),
            }
        },
    }
}

} // verus!
