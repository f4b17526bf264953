//! Classification of an executor's outcome into output bytes or a failure.
use crate::error::CallError;
use vstd::prelude::*;

verus! {

/// What the executor reports for a finished call. `H` is its halt reason.
#[derive(Clone, Debug, PartialEq, Eq)]
pub enum ExecutionOutcome<H> {
    Success { output: Vec<u8>, gas_used: u64 },
    Revert { output: Vec<u8>, gas_used: u64 },
    Halt { reason: H, gas_used: u64 },
}

/// The output of a successful execution; a revert becomes a `Revert` failure
/// with the revert payload, and a halt a `Revert` failure with no payload.
pub fn ensure_success<H>(result: ExecutionOutcome<H>) -> (r: Result<Vec<u8>, CallError>)
    ensures
        result is Success ==> r is Ok && r->Ok_0@ == result->Success_output@,
        result is Revert ==> (r matches Err(CallError::Revert { data }) && data@
            == result->Revert_output@),
        result is Halt ==> (r matches Err(CallError::Revert { data }) && data@.len() == 0),
{
    match result {
        ExecutionOutcome::Success { output, .. } => Ok(output),
        ExecutionOutcome::Revert { output, .. } => Err(CallError::Revert { data: output }),
        ExecutionOutcome::Halt { .. } => Err(CallError::Revert { data: Vec::new() }),
    }
}

} // verus!
