//! What a pricing request asks the engine to do, decided before any numeric work.
use vstd::prelude::*;
use crate::nodes::{node_count, node_count_spec};
use crate::operation::{operation_of_code, Operation};

verus! {

/// The decisions that fix one run of the engine.
#[derive(Clone, Copy, Debug, PartialEq, Eq, Structural)]
pub struct Plan {
    /// The quantity that is computed.
    pub operation: Operation,
    /// The number of frequency nodes of the cosine series, a power of two.
    pub num_nodes: usize,
}

/// Why a request cannot be planned.
#[derive(Clone, Copy, Debug, PartialEq, Eq, Structural)]
pub enum PlanError {
    /// The function code names no operation.
    UnknownOperation,
    /// Two to the requested exponent does not fit in a `usize`.
    TooManyNodes,
}

/// The plan for a function code and a node-count exponent.
pub open spec fn plan_spec(code: int, exponent: nat) -> Result<Plan, PlanError> {
    match operation_of_code(code) {
        None => Err(PlanError::UnknownOperation),
        Some(op) => match node_count_spec(exponent) {
            None => Err(PlanError::TooManyNodes),
            Some(n) => Ok(Plan { operation: op, num_nodes: n }),
        },
    }
}

/// Plans a request from its function code and the exponent of its node count
/// (the series uses `2^exponent` nodes). An unknown code is reported first.
pub fn plan_request(code: i32, exponent: usize) -> (r: Result<Plan, PlanError>)
    ensures
        r == plan_spec(code as int, exponent as nat),
{
    match Operation::from_code(code) {
        None => Err(PlanError::UnknownOperation),
        Some(op) => match node_count(exponent) {
            None => Err(PlanError::TooManyNodes),
            Some(n) => Ok(Plan { operation: op, num_nodes: n }),
        },
    }
}

} // verus!
