//! A single request: what is handed to the underlying client, and what its
//! answer becomes.
//!
//! A request is idle until [`begin_request`] is called. That call either
//! fails at once, with nothing sent, or gives the [`RequestCall`] to send.
//! [`complete_request`] then turns the client's answer into the caller's:
//! the payload as it came, or the client's failure wrapped.

use vstd::prelude::*;
use crate::error::RpcError;
use crate::json::JsonView;
use crate::params::{normalize, normalized, text_of, ParamList};
use crate::payload::RawJson;

verus! {

/// One request for the underlying client: a method and its positional
/// parameters.
#[derive(Debug, PartialEq, Eq)]
pub struct RequestCall {
    pub method: String,
    pub params: ParamList,
}

/// Prepares a request.
///
/// The method name is handed on as given. The parameters are normalised:
/// none gives a call with the empty list, a JSON array a call with its
/// elements, and anything else fails with `InvalidParams` before a call exists.
pub fn begin_request<E>(method: &str, params: Option<RawJson>) -> (r: Result<
    RequestCall,
    RpcError<E>,
>)
    ensures
        match normalized(text_of(params)) {
            Ok(items) => r matches Ok(call) && call.method@ == method@ && call.params@ == items,
            Err(message) => r matches Err(RpcError::InvalidParams(refusal)) && refusal.message@
                == message,
        },
        params is None ==> (r matches Ok(call) && call.params@ == Seq::<JsonView>::empty()),
{
    match normalize(params) {
        Ok(list) => Ok(RequestCall { method: method.to_owned(), params: list }),
        Err(refusal) => Err(RpcError::InvalidParams(refusal)),
    }
}

/// Turns the answer of the underlying client into the caller's result: a
/// payload is returned as it came, a failure as `ClientError` and with no
/// payload.
pub fn complete_request<R, E>(answer: Result<R, E>) -> (r: Result<R, RpcError<E>>)
    ensures
        answer matches Ok(payload) ==> r == Ok::<R, RpcError<E>>(payload),
        answer matches Err(failure) ==> r == Err::<R, RpcError<E>>(RpcError::ClientError(failure)),
{
    RpcError::wrap(answer)
}

} // verus!
