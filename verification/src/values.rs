//! Plain values that flow through the engine: the tagged result values that
//! operations produce, and the outcome type a task delivers to its handle.

use vstd::prelude::*;
use crate::errors::TaskError;

verus! {

/// A result value produced by an operation. The engine itself never looks
/// inside: it is a tagged variant over the shapes callers exchange, so the
/// scheduler stays agnostic to argument types.
#[derive(Debug, PartialEq, Eq)]
pub enum TaskValue {
    Unit,
    Truth(bool),
    Int(i64),
    Text(String),
}

impl Clone for TaskValue {
    fn clone(&self) -> (r: Self)
        ensures
            r == *self,
    {
        match self {
            TaskValue::Unit => TaskValue::Unit,
            TaskValue::Truth(b) => TaskValue::Truth(*b),
            TaskValue::Int(n) => TaskValue::Int(*n),
            TaskValue::Text(s) => TaskValue::Text(s.clone()),
        }
    }
}

/// What a finished task delivers: its value, or the failure wrapped with
/// task context.
pub type TaskOutcome = Result<TaskValue, TaskError>;

} // verus!
