use vstd::prelude::*;
use crate::types::Value;

verus! {

/// The outcome of running a native function.
#[derive(Debug)]
pub enum NativeReturnStatus {
    /// The function ran to completion.
    Success {
        /// The gas cost of running the function.
        cost: u64,
        /// The values to push onto the caller's stack, in declared order.
        return_values: Vec<Value>,
    },
    /// The function aborted with an error code, as a bytecode abort would.
    Aborted {
        /// The gas cost up to the point of the abort.
        cost: u64,
        /// The error code of the abort.
        error_code: u64,
    },
    /// The arguments did not match the declared signature. This only happens
    /// when the bytecode verifier let an ill-typed call through, and the
    /// interpreter treats it as an internal error, never as a user abort.
    InvalidArguments,
}

} // verus!
