use vstd::prelude::*;

verus! {

/// The failure kinds that either workflow can surface. None of them is
/// recovered internally: the caller aborts on any of them.
#[derive(Clone, Copy, Debug, PartialEq, Eq, Structural)]
pub enum WorkflowError {
    /// The credential storage is absent, or holds only whitespace.
    CredentialMissingOrEmpty,
    /// The HTTP transport itself failed (no response at all).
    TransportFailure,
    /// A response body was not valid UTF-8.
    DecodeFailure,
    /// A submission response held no `<main>` fragment.
    ExtractionFailure,
    /// A cache or configuration file could not be read or written.
    FilesystemFailure,
}

impl WorkflowError {
    /// A fixed description of the failure, for the caller to print.
    pub fn message(&self) -> (m: &'static str)
        ensures
            *self is CredentialMissingOrEmpty ==> m@ == "session credential is missing or empty"@,
            *self is TransportFailure ==> m@ == "the network request failed"@,
            *self is DecodeFailure ==> m@ == "the response body is not valid UTF-8"@,
            *self is ExtractionFailure ==> m@ == "the response holds no <main> fragment"@,
            *self is FilesystemFailure ==> m@ == "a cache or configuration file operation failed"@,
    {
        match self {
            WorkflowError::CredentialMissingOrEmpty => "session credential is missing or empty",
            WorkflowError::TransportFailure => "the network request failed",
            WorkflowError::DecodeFailure => "the response body is not valid UTF-8",
            WorkflowError::ExtractionFailure => "the response holds no <main> fragment",
            WorkflowError::FilesystemFailure => "a cache or configuration file operation failed",
        }
    }
}

} // verus!
