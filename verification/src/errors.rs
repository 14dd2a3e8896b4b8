use vstd::prelude::*;

verus! {

/// Every way one run of the classification pipeline can fail.
///
/// Each step of the pipeline raises exactly one of these; the first failure
/// short-circuits the rest of the run and is turned into a failure payload
/// with a fixed human-readable reason string.
#[derive(Clone, Copy, Debug, PartialEq, Eq, Structural)]
pub enum PipelineError {
    /// The model file is missing or unreadable.
    ModelLoad,
    /// The inference engine rejected the model bytes.
    SessionBuild,
    /// The engine could not set up an execution context or its buffers.
    BufferAllocation,
    /// The image file is missing or not decodable as an image.
    ImageLoad,
    /// The tensor could not be bound to the engine's input slot.
    TensorWrite,
    /// The forward pass failed.
    InferenceExecution,
    /// The output buffer could not be read back, or has a malformed length.
    OutputRead,
    /// The output vector was empty, so no class can be selected.
    EmptyOutput,
    /// A class index outside `1 ..= table length` was looked up.
    IndexOutOfRange,
}

impl PipelineError {
    /// The fixed reason string reported for this failure.
    pub open spec fn reason_spec(self) -> Seq<char> {
        match self {
            PipelineError::ModelLoad => "Failed to read model file"@,
            PipelineError::SessionBuild => "Failed to build model from bytes"@,
            PipelineError::BufferAllocation => "Failed to init execution context"@,
            PipelineError::ImageLoad => "Failed to load image"@,
            PipelineError::TensorWrite => "Failed to set input to the context"@,
            PipelineError::InferenceExecution => "Failed to inference"@,
            PipelineError::OutputRead => "Failed to receive output"@,
            PipelineError::EmptyOutput => "Output vector is empty"@,
            PipelineError::IndexOutOfRange => "Class index is out of range"@,
        }
    }

    /// Returns the fixed human-readable reason string for this failure.
    pub fn reason(&self) -> (r: String)
        ensures
            r@ == self.reason_spec(),
    {
        match self {
            PipelineError::ModelLoad => "Failed to read model file".to_owned(),
            PipelineError::SessionBuild => "Failed to build model from bytes".to_owned(),
            PipelineError::BufferAllocation => "Failed to init execution context".to_owned(),
            PipelineError::ImageLoad => "Failed to load image".to_owned(),
            PipelineError::TensorWrite => "Failed to set input to the context".to_owned(),
            PipelineError::InferenceExecution => "Failed to inference".to_owned(),
            PipelineError::OutputRead => "Failed to receive output".to_owned(),
            PipelineError::EmptyOutput => "Output vector is empty".to_owned(),
            PipelineError::IndexOutOfRange => "Class index is out of range".to_owned(),
        }
    }
}

} // verus!
