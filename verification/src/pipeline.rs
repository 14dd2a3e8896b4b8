use vstd::prelude::*;

use crate::errors::PipelineError;
use crate::labels::LabelTable;
use crate::report::ResultPayload;
use crate::report::failure_payload;
use crate::report::success_payload;
use crate::selector::is_first_max_key;
use crate::selector::lemma_first_max_unique;
use crate::selector::select_result;

verus! {

/// The Model Loader's decision: a read that produced bytes yields the model
/// buffer unchanged; a read that produced nothing (missing or unreadable
/// file) fails with `ModelLoad`. Whether the engine accepts the bytes as a
/// model is the engine's own later decision.
pub fn load_model(read: Option<Vec<u8>>) -> (r: Result<Vec<u8>, PipelineError>)
    ensures
        r is Ok <==> read is Some,
        r is Ok ==> r->Ok_0@ == read->Some_0@,
        r is Err ==> r->Err_0 == PipelineError::ModelLoad,
{
    match read {
        Some(bytes) => Ok(bytes),
        None => Err(PipelineError::ModelLoad),
    }
}

/// Whether a selected class index, taken 1-based, has an entry in the
/// label table and fits the reported index's width.
pub open spec fn index_resolvable(i: int, table: Seq<Seq<char>>) -> bool {
    1 <= i <= table.len() && i <= u32::MAX
}

/// The pipeline's final decision: turns the outcome of the earlier steps
/// into the payload the Reporter serializes.
///
/// A failed run keeps its error's fixed reason string. A successful
/// selection of position `i` with probability bits `p` is reported as class
/// index `i`, resolved 1-based against the label table (so the label is the
/// table entry at position `i - 1`); an index the table cannot resolve —
/// in particular a winning position 0, which the 1-based convention can
/// never look up — fails with `IndexOutOfRange` instead.
pub fn conclude(outcome: Result<(usize, u32), PipelineError>, table: &LabelTable) -> (r:
    ResultPayload)
    ensures
        outcome matches Err(e) ==> (r matches ResultPayload::Failure { reason } && reason@
            == e.reason_spec()),
        outcome matches Ok((i, p)) ==> {
            if index_resolvable(i as int, table@) {
                r matches ResultPayload::Success {
                    guess_index: gi,
                    label: l,
                    probability_bits: pb,
                } && gi == i && l@ == table@[i - 1] && pb == p
            } else {
                r matches ResultPayload::Failure { reason } && reason@
                    == PipelineError::IndexOutOfRange.reason_spec()
            }
        },
{
    match outcome {
        Err(e) => failure_payload(&e),
        Ok((i, p)) => {
            if 1 <= i && i <= table.len() && i <= u32::MAX as usize {
                let label = table.get_category(i as u32);
                success_payload(i as u32, label, p)
            } else {
                failure_payload(&PipelineError::IndexOutOfRange)
            }
        },
    }
}

/// Selects the winning class from the output vector (elements given as
/// 32-bit float bit patterns) and resolves it against the label table in
/// one step: the decisions of the whole pipeline after the engine's forward
/// pass.
///
/// An empty output vector fails with `EmptyOutput`. Otherwise the first
/// maximum position `i` under the selector's total order wins and the
/// payload reports it as in `conclude`: class index `i`, label at table
/// position `i - 1`, probability bits `output[i]`.
pub fn classify_output(output: &Vec<u32>, table: &LabelTable) -> (r: ResultPayload)
    ensures
        output@.len() == 0 ==> (r matches ResultPayload::Failure { reason } && reason@
            == PipelineError::EmptyOutput.reason_spec()),
        forall|i: int|
            is_first_max_key(output@, i) ==> {
                if index_resolvable(i, table@) {
                    r matches ResultPayload::Success {
                        guess_index: gi,
                        label: l,
                        probability_bits: pb,
                    } && gi == i && l@ == table@[i - 1] && pb == output@[i]
                } else {
                    r matches ResultPayload::Failure { reason } && reason@
                        == PipelineError::IndexOutOfRange.reason_spec()
                }
            },
{
    let outcome = select_result(output);
    proof {
        if outcome is Ok {
            let chosen = outcome->Ok_0.0 as int;
            assert forall|i: int| is_first_max_key(output@, i) implies i == chosen by {
                lemma_first_max_unique(output@, i, chosen);
            };
        }
    }
    conclude(outcome, table)
}

} // verus!
