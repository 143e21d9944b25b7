//! The error taxonomy of the pipeline. Any of these aborts the current task;
//! whether the abort becomes a terminal `Failed` record depends only on the
//! delivery attempt count (see `task::record_failure`).

use vstd::prelude::*;

verus! {

/// Everything that can go wrong while one task is processed.
#[derive(Clone, Copy, Debug, PartialEq, Eq, Structural)]
pub enum PipelineError {
    /// The input's extension is not on the allow-list.
    UnsupportedFileType,
    /// The external conversion utility could not produce a PDF.
    ConversionFailed,
    /// The normalized PDF could not be parsed to count its pages.
    CorruptDocument,
    /// The document could not be split into page batches.
    SplitFailed,
    /// The layout-analysis service failed; its error text may name a
    /// usage-limit condition, which `task::classify_failure` picks up.
    ModelInvocationFailed,
    /// The layout-analysis service answered with a structurally invalid body.
    MalformedModelResponse,
    /// A blob download or upload failed.
    StorageFailed,
    /// A task-store read or write failed.
    PersistenceFailed,
    /// The downstream handoff could not be enqueued or is not configured.
    PublishFailed,
}

/// The wording each error is reported with.
pub open spec fn describe_spec(e: PipelineError) -> Seq<char> {
    match e {
        PipelineError::UnsupportedFileType => "Not a valid file type"@,
        PipelineError::ConversionFailed => "PDF conversion failed"@,
        PipelineError::CorruptDocument => "Failed to get page count"@,
        PipelineError::SplitFailed => "Failed to split PDF"@,
        PipelineError::ModelInvocationFailed => "Model invocation failed"@,
        PipelineError::MalformedModelResponse => "Malformed model response"@,
        PipelineError::StorageFailed => "Storage operation failed"@,
        PipelineError::PersistenceFailed => "Task store operation failed"@,
        PipelineError::PublishFailed => "Failed to publish downstream"@,
    }
}

impl PipelineError {
    /// The error as human-readable text, as it enters progress messages and
    /// failure classification.
    pub fn describe(&self) -> (r: String)
        ensures
            r@ == describe_spec(*self),
    {
        match self {
            PipelineError::UnsupportedFileType => "Not a valid file type".to_owned(),
            PipelineError::ConversionFailed => "PDF conversion failed".to_owned(),
            PipelineError::CorruptDocument => "Failed to get page count".to_owned(),
            PipelineError::SplitFailed => "Failed to split PDF".to_owned(),
            PipelineError::ModelInvocationFailed => "Model invocation failed".to_owned(),
            PipelineError::MalformedModelResponse => "Malformed model response".to_owned(),
            PipelineError::StorageFailed => "Storage operation failed".to_owned(),
            PipelineError::PersistenceFailed => "Task store operation failed".to_owned(),
            PipelineError::PublishFailed => "Failed to publish downstream".to_owned(),
        }
    }
}

} // verus!
