use vstd::prelude::*;

verus! {

/// The transport status of a failed remote call.
#[verifier::external_type_specification]
#[verifier::external_body]
pub struct ExStatus(tonic::Status);

/// Errors raised while configuring a client or talking to the server.
#[derive(Debug)]
pub enum Error {
    /// An endpoint does not parse as a URI.
    InvalidEndpoint,
    /// The client was given no endpoint at all.
    NoEndpointsDefined,
    CannotAlter(tonic::Status),
    CannotLogin(tonic::Status),
    CannotRefreshLogin(tonic::Status),
    CannotQuery(tonic::Status),
    CannotMutate(tonic::Status),
    CannotDoRequest(tonic::Status),
    CannotCommitOrAbort(tonic::Status),
    CannotCheckVersion(tonic::Status),
}

} // verus!
