//! How the transaction middlewares end the transaction of a request.
use vstd::prelude::*;

verus! {

/// The message that a failed transaction answers with; no internal detail is given out.
pub const TRANSACTION_ERROR_MESSAGE: &'static str = "System error";

/// How the transaction of a request ends.
#[derive(Clone, Copy, Debug, PartialEq, Eq, Structural)]
pub enum TransactionEnd {
    Commit,
    Rollback,
    /// The transaction is left as it is.
    Leave,
}

/// The general middleware: a successful response commits, a failed request (no
/// response) rolls back, a response with an error status leaves the transaction.
pub fn transaction_end(has_response: bool, is_success: bool) -> (e: TransactionEnd)
    ensures
        has_response && is_success ==> e == TransactionEnd::Commit,
        has_response && !is_success ==> e == TransactionEnd::Leave,
        !has_response ==> e == TransactionEnd::Rollback,
{
    if has_response {
        if is_success {
            TransactionEnd::Commit
        } else {
            TransactionEnd::Leave
        }
    } else {
        TransactionEnd::Rollback
    }
}

/// The SeaORM middleware: a successful response commits, a response with an error
/// status rolls back, and a failure before any response leaves the transaction.
pub fn sea_orm_transaction_end(has_response: bool, is_success: bool) -> (e: TransactionEnd)
    ensures
        has_response && is_success ==> e == TransactionEnd::Commit,
        has_response && !is_success ==> e == TransactionEnd::Rollback,
        !has_response ==> e == TransactionEnd::Leave,
{
    if has_response {
        if is_success {
            TransactionEnd::Commit
        } else {
            TransactionEnd::Rollback
        }
    } else {
        TransactionEnd::Leave
    }
}

} // verus!
