//! Failures of the pipeline, shared by every adapter.

use vstd::prelude::*;

verus! {

/// Why an invocation produced no result. No failure is retried: each one
/// reaches the hosting surface as it is.
#[derive(Clone, Copy, Debug, PartialEq, Eq, Structural)]
pub enum PipelineError {
    /// The key is missing or malformed, or the key service refused to unwrap.
    KeyUnavailable,
    /// The AEAD primitive rejected its input.
    EncryptionFailure,
    /// The bytes handed back by the key service are not UTF-8 text.
    InvalidUtf8,
    /// The key service could not be reached or failed on its side.
    UpstreamFetchFailure,
}

impl PipelineError {
    /// A short stable name for the failure, for logs and error bodies.
    pub fn name(&self) -> (r: &'static str)
        ensures
            r@ == match self {
                PipelineError::KeyUnavailable => "KeyUnavailable"@,
                PipelineError::EncryptionFailure => "EncryptionFailure"@,
                PipelineError::InvalidUtf8 => "InvalidUtf8"@,
                PipelineError::UpstreamFetchFailure => "UpstreamFetchFailure"@,
            },
    {
        match self {
            PipelineError::KeyUnavailable => "KeyUnavailable",
            PipelineError::EncryptionFailure => "EncryptionFailure",
            PipelineError::InvalidUtf8 => "InvalidUtf8",
            PipelineError::UpstreamFetchFailure => "UpstreamFetchFailure",
        }
    }
}

} // verus!
