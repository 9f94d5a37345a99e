use crate::gas::GasEstimate;
use vstd::prelude::*;

verus! {

/// Why a scheduled task produced no result.
#[derive(Debug, Clone, Copy, PartialEq, Eq, Structural)]
pub enum TaskError {
    /// The task panicked.
    Panicked,
    /// The task was cancelled before it finished.
    Cancelled,
}

/// The single failure of a joined pair of tasks, whichever of them failed.
#[derive(Debug, Clone, Copy, PartialEq, Eq, Structural)]
pub enum OrchestrationError {
    ParallelOperationFailed,
}

/// The results of the two gas computations, both of which succeeded.
#[derive(Debug, Clone, Copy, PartialEq, Eq, Structural)]
pub struct OrchestrationResult {
    pub estimate: GasEstimate,
    pub adjusted_limit: u128,
}

/// Joins the outcomes of the concurrently run estimate and limit adjustment:
/// both values when both tasks succeeded, one aggregate failure otherwise.
pub fn join_operations(
    estimate: Result<GasEstimate, TaskError>,
    adjusted_limit: Result<u128, TaskError>,
) -> (r: Result<OrchestrationResult, OrchestrationError>)
    ensures
        estimate is Ok && adjusted_limit is Ok ==> r == Ok::<
            OrchestrationResult,
            OrchestrationError,
        >(
            (OrchestrationResult {
                estimate: estimate->Ok_0,
                adjusted_limit: adjusted_limit->Ok_0,
            }),
        ),
        (estimate is Err || adjusted_limit is Err) ==> r == Err::<
            OrchestrationResult,
            OrchestrationError,
        >(OrchestrationError::ParallelOperationFailed),
{
    match (estimate, adjusted_limit) {
        (Ok(e), Ok(a)) => Ok(OrchestrationResult { estimate: e, adjusted_limit: a }),
        _ => Err(OrchestrationError::ParallelOperationFailed),
    }
}

} // verus!
