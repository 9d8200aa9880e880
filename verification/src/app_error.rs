use vstd::prelude::*;

verus! {

/// The two-tier error taxonomy: a failure is either the caller's fault or the
/// system's fault.
#[derive(Debug, Clone, Copy, PartialEq, Eq, Structural)]
pub enum ErrorType {
    ClientError,
    ServerError,
}

/// A domain error carried from the workflow back to the transport layer.
#[derive(Debug, Clone)]
pub struct AppError {
    pub error_type: ErrorType,
    pub detail: String,
}

impl AppError {
    /// A caller-visible failure: the detail is meaningful and safe to show.
    pub fn client_error(detail: String) -> (e: Self)
        ensures
            e.error_type == ErrorType::ClientError,
            e.detail == detail,
    {
        AppError { error_type: ErrorType::ClientError, detail }
    }

    /// An internal failure: whatever the underlying cause says, the
    /// caller-visible detail is always the same fixed generic string.
    #[allow(unused_variables)]
    pub fn server_error(details: String) -> (e: Self)
        ensures
            e.error_type == ErrorType::ServerError,
            e.detail@ == "Internal error"@,
    {
        AppError { error_type: ErrorType::ServerError, detail: "Internal error".to_owned() }
    }
}

} // verus!
