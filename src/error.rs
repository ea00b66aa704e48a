use vstd::prelude::*;

verus! {

/// Why a batch failed. A failed batch never yields an archive, partial or not.
#[derive(Debug, Clone, Copy, PartialEq, Eq, Structural)]
pub enum PipelineError {
    /// An item's bytes are not a recognised, well-formed image.
    DecodeFailure,
    /// A transformed image could not be encoded to PNG.
    EncodeFailure,
    /// The archive could not register or write an entry, or could not be sealed.
    ArchiveFailure,
    /// The worker that ran the batch stopped abnormally.
    WorkerFailure,
}

/// HTTP status that reports a failure: the client's fault for undecodable input,
/// the server's otherwise.
pub open spec fn failure_status(e: PipelineError) -> u16 {
    match e {
        PipelineError::DecodeFailure => 400,
        _ => 500,
    }
}

impl PipelineError {
    /// HTTP status code that reports this failure.
    pub fn status_code(&self) -> (r: u16)
        ensures
            r == failure_status(*self),
    {
        match self {
            PipelineError::DecodeFailure => 400,
            _ => 500,
        }
    }
}

} // verus!
