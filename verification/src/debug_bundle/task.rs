//! The outcome of one diagnostic task.

use vstd::prelude::*;

verus! {

/// How a diagnostic task ended.
#[derive(Debug, Clone)]
pub enum TaskResult<T> {
    Failure(String),
    Panic(String),
    Success(T),
    Timeout,
}

impl<T> TaskResult<T> {
    /// The task's result, if it succeeded.
    pub fn get(&self) -> (r: Option<&T>)
        ensures
            r == (match *self {
                TaskResult::Success(v) => Some(&v),
                _ => None,
            }),
    {
        match self {
            TaskResult::Success(v) => Some(v),
            _ => None,
        }
    }
}

} // verus!
