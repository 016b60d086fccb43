//! Error types: the engine-level error enum and the per-task failure record
//! that wraps an operation failure with its context.

use vstd::prelude::*;
use vstd::string::StringExecFns;
use crate::text::decimal_chars;
use crate::text::signed_decimal_chars;
use crate::text::append_decimal;
use crate::text::append_signed_decimal;

verus! {

/// Engine-level errors: admission rejections, validation failures, and
/// channel faults.
#[derive(Clone, Debug, PartialEq, Eq)]
pub enum MakeParallelError {
    TaskCancelled { task_id: String, reason: String },
    TaskTimeout { task_id: String, timeout_ms: u64 },
    ShutdownInProgress,
    MemoryLimitExceeded { limit_percent: u64 },
    InvalidPriority { priority: i32 },
    TaskExecutionFailed { message: String },
    ResourceLimitReached { resource: String, current: usize, limit: usize },
    InvalidConfiguration { message: String },
    ChannelError { message: String },
}

/// The one-line rendering of each engine-level error.
pub open spec fn make_parallel_error_text(e: MakeParallelError) -> Seq<char> {
    match e {
        MakeParallelError::TaskCancelled { task_id, reason } => "Task '"@ + task_id@
            + "' was cancelled: "@ + reason@,
        MakeParallelError::TaskTimeout { task_id, timeout_ms } => "Task '"@ + task_id@
            + "' timed out after "@ + decimal_chars(timeout_ms as nat) + "ms"@,
        MakeParallelError::ShutdownInProgress => "Cannot start new tasks: shutdown in progress"@,
        MakeParallelError::MemoryLimitExceeded { limit_percent } => "Memory limit exceeded: "@
            + decimal_chars(limit_percent as nat) + "% limit reached"@,
        MakeParallelError::InvalidPriority { priority } => "Invalid priority value: "@
            + signed_decimal_chars(priority as int) + ". Priority must be >= 0"@,
        MakeParallelError::TaskExecutionFailed { message } => "Task execution failed: "@
            + message@,
        MakeParallelError::ResourceLimitReached { resource, current, limit } =>
            "Resource limit reached: "@ + resource@ + " at "@ + decimal_chars(current as nat)
            + "/"@ + decimal_chars(limit as nat),
        MakeParallelError::InvalidConfiguration { message } => "Invalid configuration: "@
            + message@,
        MakeParallelError::ChannelError { message } => "Channel communication error: "@
            + message@,
    }
}

impl MakeParallelError {
    /// Renders the error as one line of text.
    pub fn describe(&self) -> (r: String)
        ensures
            r@ == make_parallel_error_text(*self),
    {
        match self {
            MakeParallelError::TaskCancelled { task_id, reason } => {
                let mut s = String::from_str("Task '");
                s.append(task_id.as_str());
                s.append("' was cancelled: ");
                s.append(reason.as_str());
                proof {
                    assert(s@ =~= make_parallel_error_text(*self));
                }
                s
            },
            MakeParallelError::TaskTimeout { task_id, timeout_ms } => {
                let mut s = String::from_str("Task '");
                s.append(task_id.as_str());
                s.append("' timed out after ");
                append_decimal(&mut s, *timeout_ms);
                s.append("ms");
                proof {
                    assert(s@ =~= make_parallel_error_text(*self));
                }
                s
            },
            MakeParallelError::ShutdownInProgress => {
                String::from_str("Cannot start new tasks: shutdown in progress")
            },
            MakeParallelError::MemoryLimitExceeded { limit_percent } => {
                let mut s = String::from_str("Memory limit exceeded: ");
                append_decimal(&mut s, *limit_percent);
                s.append("% limit reached");
                proof {
                    assert(s@ =~= make_parallel_error_text(*self));
                }
                s
            },
            MakeParallelError::InvalidPriority { priority } => {
                let mut s = String::from_str("Invalid priority value: ");
                append_signed_decimal(&mut s, *priority);
                s.append(". Priority must be >= 0");
                proof {
                    assert(s@ =~= make_parallel_error_text(*self));
                }
                s
            },
            MakeParallelError::TaskExecutionFailed { message } => {
                let mut s = String::from_str("Task execution failed: ");
                s.append(message.as_str());
                proof {
                    assert(s@ =~= make_parallel_error_text(*self));
                }
                s
            },
            MakeParallelError::ResourceLimitReached { resource, current, limit } => {
                let mut s = String::from_str("Resource limit reached: ");
                s.append(resource.as_str());
                s.append(" at ");
                append_decimal(&mut s, *current as u64);
                s.append("/");
                append_decimal(&mut s, *limit as u64);
                proof {
                    assert(s@ =~= make_parallel_error_text(*self));
                }
                s
            },
            MakeParallelError::InvalidConfiguration { message } => {
                let mut s = String::from_str("Invalid configuration: ");
                s.append(message.as_str());
                proof {
                    assert(s@ =~= make_parallel_error_text(*self));
                }
                s
            },
            MakeParallelError::ChannelError { message } => {
                let mut s = String::from_str("Channel communication error: ");
                s.append(message.as_str());
                proof {
                    assert(s@ =~= make_parallel_error_text(*self));
                }
                s
            },
        }
    }
}

/// A task failure with its full context: which operation failed, under which
/// task id, after how long, with what message and failure kind.
#[derive(Debug, PartialEq, Eq)]
pub struct TaskError {
    pub task_name: String,
    pub elapsed_ms: u64,
    pub error_message: String,
    pub error_type: String,
    pub task_id: String,
}

impl Clone for TaskError {
    fn clone(&self) -> (r: Self)
        ensures
            r == *self,
    {
        TaskError {
            task_name: self.task_name.clone(),
            elapsed_ms: self.elapsed_ms,
            error_message: self.error_message.clone(),
            error_type: self.error_type.clone(),
            task_id: self.task_id.clone(),
        }
    }
}

/// The one-line rendering of a task failure.
pub open spec fn task_error_text(e: TaskError) -> Seq<char> {
    "TaskError in '"@ + e.task_name@ + "' (task_id: "@ + e.task_id@ + ", elapsed: "@
        + decimal_chars(e.elapsed_ms as nat) + "ms): "@ + e.error_message@ + " ("@
        + e.error_type@ + ")"@
}

impl TaskError {
    /// Renders the failure as one line of text.
    pub fn describe(&self) -> (r: String)
        ensures
            r@ == task_error_text(*self),
    {
        let mut s = String::from_str("TaskError in '");
        s.append(self.task_name.as_str());
        s.append("' (task_id: ");
        s.append(self.task_id.as_str());
        s.append(", elapsed: ");
        append_decimal(&mut s, self.elapsed_ms);
        s.append("ms): ");
        s.append(self.error_message.as_str());
        s.append(" (");
        s.append(self.error_type.as_str());
        s.append(")");
        proof {
            assert(s@ =~= task_error_text(*self));
        }
        s
    }
}

} // verus!
