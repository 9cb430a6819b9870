//! Errors of the anchoring service.
use vstd::prelude::*;

pub use exonum_bitcoinrpc::Error as RpcError;

verus! {

/// `exonum_bitcoinrpc::Error`, an error of the Bitcoin RPC client: nothing is claimed of what is
/// inside.
#[verifier::external_type_specification]
#[verifier::external_body]
pub struct ExRpcError(RpcError);

/// Errors of the service's own workings.
#[derive(Debug)]
pub enum InternalError {
    /// The Bitcoin RPC client failed.
    Rpc(RpcError),
}

/// Errors of the anchoring handler.
#[derive(Debug)]
pub struct HandlerError {
    /// What went wrong.
    pub reason: String,
}

/// Anchoring btc service Error type.
#[derive(Debug)]
pub enum Error {
    /// Internal error
    Internal(InternalError),
    /// Handler error.
    Handler(HandlerError),
}

impl From<RpcError> for Error {
    fn from(err: RpcError) -> (error: Error)
        ensures
            error == Error::Internal(InternalError::Rpc(err)),
    {
        Error::Internal(InternalError::Rpc(err))
    }
}

impl vstd::std_specs::convert::FromSpecImpl<RpcError> for Error {
    open spec fn obeys_from_spec() -> bool {
        true
    }

    open spec fn from_spec(err: RpcError) -> Error {
        Error::Internal(InternalError::Rpc(err))
    }
}

} // verus!
