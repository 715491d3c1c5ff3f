//! What a call ends in: the response of the handler, or a structured error.
use crate::params::ParamError;
use crate::spec::Error;
use vstd::prelude::*;

verus! {

/// The code of a call to a method that is not registered.
pub const METHOD_NOT_FOUND_CODE: i32 = -32601;

/// The code of a call whose parameters do not make the arguments of the method.
pub const INVALID_PARAMS_CODE: i32 = -32602;

/// The message of a call to a method that is not registered.
pub open spec fn method_not_found_message() -> Seq<char> {
    "Method not found"@
}

/// The message of a call whose parameters do not make the arguments of the
/// method.
pub open spec fn invalid_params_message() -> Seq<char> {
    "Invalid params"@
}

/// Why a call has no response.
#[derive(Debug, Clone)]
pub enum CallError {
    /// No method is registered under the name that was called.
    MethodNotFound(String),
    /// The parameters of the call do not make the arguments of the method.
    InvalidParams(ParamError),
    /// The handler has failed. Its error is handed on as it is.
    Handler(Error),
}

impl CallError {
    /// The code of the error in the protocol. The code of a failed handler is
    /// its own.
    pub fn code(&self) -> (code: i32)
        ensures
            code == (match self {
                CallError::MethodNotFound(_) => METHOD_NOT_FOUND_CODE,
                CallError::InvalidParams(_) => INVALID_PARAMS_CODE,
                CallError::Handler(e) => e.code,
            }),
    {
        match self {
            CallError::MethodNotFound(_) => METHOD_NOT_FOUND_CODE,
            CallError::InvalidParams(_) => INVALID_PARAMS_CODE,
            CallError::Handler(e) => e.code,
        }
    }

    /// The message of the error in the protocol. The message of a failed handler
    /// is its own.
    pub fn message(&self) -> (message: String)
        ensures
            message@ == (match self {
                CallError::MethodNotFound(_) => method_not_found_message(),
                CallError::InvalidParams(_) => invalid_params_message(),
                CallError::Handler(e) => e.message@,
            }),
    {
        match self {
            CallError::MethodNotFound(_) => "Method not found".to_owned(),
            CallError::InvalidParams(_) => "Invalid params".to_owned(),
            CallError::Handler(e) => e.message.clone(),
        }
    }
}

/// The outcome of a call.
#[derive(Debug, Clone)]
pub enum ResultEnvelope<Response> {
    Success(Response),
    Failure(CallError),
}

impl<Response> ResultEnvelope<Response> {
    /// The envelope of what a handler has returned: its response, or its own
    /// error, handed on as it is. The envelope depends on nothing but that
    /// outcome: it is the same for a handler that has returned it at once and
    /// for one whose task has run to its end.
    pub fn complete(outcome: Result<Response, Error>) -> (envelope: ResultEnvelope<Response>)
        ensures
            envelope == (match outcome {
                Ok(response) => ResultEnvelope::<Response>::Success(response),
                Err(e) => ResultEnvelope::<Response>::Failure(CallError::Handler(e)),
            }),
    {
        match outcome {
            Ok(response) => ResultEnvelope::Success(response),
            Err(e) => ResultEnvelope::Failure(CallError::Handler(e)),
        }
    }

    /// The envelope of a call that has reached no handler.
    pub fn reject(error: CallError) -> (envelope: ResultEnvelope<Response>)
        ensures
            envelope == ResultEnvelope::<Response>::Failure(error),
    {
        ResultEnvelope::Failure(error)
    }
}

} // verus!
