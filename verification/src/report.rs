use vstd::prelude::*;

use crate::errors::PipelineError;

verus! {

/// What one run of the pipeline reports: either the winning class with its
/// probability, or the reason the run failed.
///
/// The probability travels as the bit pattern of the engine's 32-bit float,
/// exactly as the output vector held it.
pub enum ResultPayload {
    Success { guess_index: u32, label: String, probability_bits: u32 },
    Failure { reason: String },
}

/// Builds the success payload for a winning class.
pub fn success_payload(guess_index: u32, label: String, probability_bits: u32) -> (r:
    ResultPayload)
    ensures
        r matches ResultPayload::Success {
            guess_index: gi,
            label: l,
            probability_bits: pb,
        } && gi == guess_index && l@ == label@ && pb == probability_bits,
{
    ResultPayload::Success { guess_index, label, probability_bits }
}

/// Builds the failure payload for a pipeline error, carrying its fixed
/// reason string.
pub fn failure_payload(err: &PipelineError) -> (r: ResultPayload)
    ensures
        r matches ResultPayload::Failure { reason } && reason@ == err.reason_spec(),
{
    ResultPayload::Failure { reason: err.reason() }
}

} // verus!
