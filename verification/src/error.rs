//! The two ways in which a call can fail.

use vstd::prelude::*;

verus! {

/// Call parameters that are no JSON array. Found before anything is sent.
#[derive(Debug, PartialEq, Eq, Clone)]
pub struct InvalidParams {
    /// Says what was expected and quotes the payload that was given.
    pub message: String,
}

/// What a caller sees when a call fails, whichever side failed: the
/// parameters were refused here, or the underlying client reported `E`.
#[derive(Debug, PartialEq, Eq, Clone)]
pub enum RpcError<E> {
    InvalidParams(InvalidParams),
    ClientError(E),
}

impl InvalidParams {
    /// The message.
    pub fn message(&self) -> (text: &str)
        ensures
            text@ == self.message@,
    {
        self.message.as_str()
    }
}

impl<E> RpcError<E> {
    /// Passes a success through and wraps a failure of the underlying client.
    pub fn wrap<T>(outcome: Result<T, E>) -> (r: Result<T, RpcError<E>>)
        ensures
            outcome matches Ok(value) ==> r == Ok::<T, RpcError<E>>(value),
            outcome matches Err(failure) ==> r == Err::<T, RpcError<E>>(
                RpcError::ClientError(failure),
            ),
    {
        match outcome {
            Ok(value) => Ok(value),
            Err(failure) => Err(RpcError::ClientError(failure)),
        }
    }
}

} // verus!
