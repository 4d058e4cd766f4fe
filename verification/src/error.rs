use vstd::prelude::*;

verus! {

/// Why an operation on a smart function failed.
#[derive(Clone, Copy, Debug, PartialEq, Eq, Structural)]
pub enum Error {
    /// No code is stored at the target address.
    InvalidAddress,
    /// The text is not the encoding of an address.
    MalformedAddress,
    /// The request names no target in its authority component.
    MissingTarget,
    /// The request already carried a caller identity.
    IdentitySpoofAttempt,
    /// The request's header map refused to take the caller's identity.
    HeadersFull,
    /// The address to create an account at has an account already.
    AccountExists,
    /// The module has no `default` export.
    HandlerExportMissing,
    /// The module's `default` export cannot be called.
    HandlerNotCallable,
    /// Parsing, module evaluation or the handler raised a failure.
    ScriptEvaluationFailure,
    /// The handler settled with a value that is no response.
    ResponseConversionFailure,
}

impl Error {
    /// A one-line description for diagnostics.
    pub fn message(&self) -> (text: &'static str)
        ensures
            text@ == (match *self {
                Error::InvalidAddress => "invalid address"@,
                Error::MalformedAddress => "malformed address"@,
                Error::MissingTarget => "request has no target"@,
                Error::IdentitySpoofAttempt => "Referer already set"@,
                Error::HeadersFull => "too many header names"@,
                Error::AccountExists => "account already exists"@,
                Error::HandlerExportMissing => "module has no `default` export"@,
                Error::HandlerNotCallable => "Failed to convert `default` export to js object"@,
                Error::ScriptEvaluationFailure => "script evaluation failed"@,
                Error::ResponseConversionFailure => "Expected valid response"@,
            }),
    {
        match self {
            Error::InvalidAddress => "invalid address",
            Error::MalformedAddress => "malformed address",
            Error::MissingTarget => "request has no target",
            Error::IdentitySpoofAttempt => "Referer already set",
            Error::HeadersFull => "too many header names",
            Error::AccountExists => "account already exists",
            Error::HandlerExportMissing => "module has no `default` export",
            Error::HandlerNotCallable => "Failed to convert `default` export to js object",
            Error::ScriptEvaluationFailure => "script evaluation failed",
            Error::ResponseConversionFailure => "Expected valid response",
        }
    }
}

} // verus!
