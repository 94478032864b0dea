use vstd::prelude::*;

use crate::errors::client::Error as ClientError;

verus! {

/// Errors of the transaction protocol.
#[derive(Debug)]
pub enum Error {
    /// A reply carried a context of another transaction.
    StartTsMismatch,
    /// The remote call failed.
    GrpcError(ClientError),
    /// A query reply carried no transaction context.
    EmptyTxn,
    /// A mutation reply carried no transaction context.
    MissingTxnContext,
    /// The transaction was already committed.
    TxnCommitted,
}

} // verus!
