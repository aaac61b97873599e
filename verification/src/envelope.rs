//! The generic success/failure envelope that the gateway wraps every
//! response in, and its translation into a payload or a structured error.

use vstd::prelude::*;
use vstd::string::StringExecFns;
use crate::http::opt_str_view;

verus! {

/// The response wrapper used by every gateway endpoint: a success flag, an
/// error code and optional message, and the payload when there is one.
pub struct BaseResult<T> {
    pub code: String,
    pub request_id: String,
    pub data: Option<T>,
    pub success: bool,
    pub message: Option<String>,
}

/// An error reported by this library once a well-formed response is in hand.
///
/// Transport-level failures (network errors, non-2xx statuses) never reach
/// this type: they stay with the transport that produced them.
#[derive(Debug)]
pub enum CallError {
    /// The envelope reported `success == false`; `message` is exactly
    /// `"<code>: <message-or-empty>"`.
    Api { message: String },
    /// The envelope reported `success == true` but carried no payload.
    Decode,
}

/// An envelope that carries a payload the caller may use.
pub open spec fn envelope_ok<T>(env: BaseResult<T>) -> bool {
    env.success && env.data is Some
}

/// The text an upstream-reported failure carries: `"<code>: <message-or-empty>"`.
pub open spec fn api_error_message(code: Seq<char>, message: Option<Seq<char>>) -> Seq<char> {
    code + ": "@ + (match message {
        Some(m) => m,
        None => Seq::<char>::empty(),
    })
}

/// The error [`trans_result`] hands back for a given envelope: `Decode` when
/// the envelope claimed success without a payload, and otherwise an `Api`
/// error whose text is exactly `"<code>: <message-or-empty>"`.
pub open spec fn is_trans_error<T>(env: BaseResult<T>, e: CallError) -> bool {
    if env.success {
        e is Decode
    } else {
        e matches CallError::Api { message } && message@ == api_error_message(
            env.code@,
            opt_str_view(env.message),
        )
    }
}

/// Unwrap an envelope: the payload when `success` is true and present, a
/// `Decode` error when `success` is true but the payload is absent, and an
/// `Api` error carrying `"<code>: <message-or-empty>"` when `success` is false.
pub fn trans_result<T>(result: BaseResult<T>) -> (r: Result<T, CallError>)
    ensures
        envelope_ok(result) ==> r == Ok::<T, CallError>(result.data->0),
        !envelope_ok(result) ==> (r matches Err(e) && is_trans_error(result, e)),
{
    if result.success {
        match result.data {
            Some(d) => Ok(d),
            None => Err(CallError::Decode),
        }
    } else {
        let msg = match result.message {
            Some(m) => m,
            None => String::new(),
        };
        let mut text = result.code;
        text.append(": ");
        text.append(msg.as_str());
        Err(CallError::Api { message: text })
    }
}

} // verus!
