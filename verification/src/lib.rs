//! A verified library for a single-image classification pipeline: load a
//! serialized model, preprocess one image into the engine's input tensor,
//! run one forward pass through an inference engine, select the
//! highest-scoring class, resolve it against a compiled-in label table, and
//! build the reported payload.
//!
//! The engine itself, file reads and the final printing are the calling
//! program's work; every decision around them — preprocessing, the total
//! order used for selection, the 1-based label lookup, and the mapping of
//! each failure to its fixed reason — lives here with a contract.

use vstd::prelude::*;

pub mod errors;
pub mod labels;
pub mod pipeline;
pub mod preprocess;
pub mod report;
pub mod selector;

pub use errors::PipelineError;
pub use labels::LabelTable;
pub use pipeline::classify_output;
pub use pipeline::conclude;
pub use pipeline::load_model;
pub use preprocess::image_to_tensor;
pub use preprocess::ImageTensor;
pub use report::failure_payload;
pub use report::success_payload;
pub use report::ResultPayload;
pub use selector::output_vector_from_bytes;
pub use selector::select_result;
pub use selector::total_order_key;
pub use selector::u32_from_le;

verus! {

} // verus!
