//! How failed remote calls become errors: one error kind per call.
use vstd::prelude::*;

use crate::errors::ClientError;

verus! {

/// The remote calls of the server's interface.
#[derive(Debug, Clone, Copy, PartialEq, Eq, Structural)]
pub enum RpcKind {
    Login,
    RefreshLogin,
    Query,
    Mutate,
    DoRequest,
    Alter,
    CommitOrAbort,
    CheckVersion,
}

/// The error that reports a failure of the call `kind` with `status`.
pub open spec fn rpc_error_spec(kind: RpcKind, status: tonic::Status) -> ClientError {
    match kind {
        RpcKind::Login => ClientError::CannotLogin(status),
        RpcKind::RefreshLogin => ClientError::CannotRefreshLogin(status),
        RpcKind::Query => ClientError::CannotQuery(status),
        RpcKind::Mutate => ClientError::CannotMutate(status),
        RpcKind::DoRequest => ClientError::CannotDoRequest(status),
        RpcKind::Alter => ClientError::CannotAlter(status),
        RpcKind::CommitOrAbort => ClientError::CannotCommitOrAbort(status),
        RpcKind::CheckVersion => ClientError::CannotCheckVersion(status),
    }
}

/// The error that reports a failure of the call `kind`, keeping its status.
pub fn rpc_error(kind: RpcKind, status: tonic::Status) -> (r: ClientError)
    ensures
        r == rpc_error_spec(kind, status),
{
    match kind {
        RpcKind::Login => ClientError::CannotLogin(status),
        RpcKind::RefreshLogin => ClientError::CannotRefreshLogin(status),
        RpcKind::Query => ClientError::CannotQuery(status),
        RpcKind::Mutate => ClientError::CannotMutate(status),
        RpcKind::DoRequest => ClientError::CannotDoRequest(status),
        RpcKind::Alter => ClientError::CannotAlter(status),
        RpcKind::CommitOrAbort => ClientError::CannotCommitOrAbort(status),
        RpcKind::CheckVersion => ClientError::CannotCheckVersion(status),
    }
}

/// The outcome of the call `kind`: its reply, or the error that reports its
/// failure.
pub fn rpc_result<T>(kind: RpcKind, outcome: Result<T, tonic::Status>) -> (r: Result<
    T,
    ClientError,
>)
    ensures
        match outcome {
            Ok(v) => r == Ok::<T, ClientError>(v),
            Err(s) => r == Err::<T, ClientError>(rpc_error_spec(kind, s)),
        },
{
    match outcome {
        Ok(v) => Ok(v),
        Err(s) => Err(rpc_error(kind, s)),
    }
}

} // verus!
