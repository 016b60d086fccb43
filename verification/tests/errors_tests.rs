use makeparallel::errors::MakeParallelError;
use makeparallel::errors::TaskError;

#[test]
fn test_task_error_description() {
    let e = TaskError {
        task_name: "fetch".to_string(),
        elapsed_ms: 250,
        error_message: "connection refused".to_string(),
        error_type: "OSError".to_string(),
        task_id: "task_12".to_string(),
    };
    assert_eq!(
        e.describe(),
        "TaskError in 'fetch' (task_id: task_12, elapsed: 250ms): connection refused (OSError)"
    );
}

#[test]
fn test_engine_error_descriptions() {
    assert_eq!(
        MakeParallelError::TaskCancelled {
            task_id: "task_3".to_string(),
            reason: "timeout".to_string(),
        }
        .describe(),
        "Task 'task_3' was cancelled: timeout"
    );
    assert_eq!(
        MakeParallelError::TaskTimeout { task_id: "task_4".to_string(), timeout_ms: 1500 }
            .describe(),
        "Task 'task_4' timed out after 1500ms"
    );
    assert_eq!(
        MakeParallelError::ShutdownInProgress.describe(),
        "Cannot start new tasks: shutdown in progress"
    );
    assert_eq!(
        MakeParallelError::MemoryLimitExceeded { limit_percent: 80 }.describe(),
        "Memory limit exceeded: 80% limit reached"
    );
    assert_eq!(
        MakeParallelError::InvalidPriority { priority: -7 }.describe(),
        "Invalid priority value: -7. Priority must be >= 0"
    );
    assert_eq!(
        MakeParallelError::TaskExecutionFailed { message: "boom".to_string() }.describe(),
        "Task execution failed: boom"
    );
    assert_eq!(
        MakeParallelError::ResourceLimitReached {
            resource: "concurrency".to_string(),
            current: 6,
            limit: 5,
        }
        .describe(),
        "Resource limit reached: concurrency at 6/5"
    );
    assert_eq!(
        MakeParallelError::InvalidConfiguration { message: "bad".to_string() }.describe(),
        "Invalid configuration: bad"
    );
    assert_eq!(
        MakeParallelError::ChannelError { message: "closed".to_string() }.describe(),
        "Channel communication error: closed"
    );
}

#[test]
fn test_error_variants_carry_their_context() {
    let cancelled = MakeParallelError::TaskCancelled {
        task_id: "task_1".to_string(),
        reason: "timeout".to_string(),
    };
    assert!(matches!(cancelled, MakeParallelError::TaskCancelled { .. }));

    let timeout = MakeParallelError::TaskTimeout { task_id: "task_2".to_string(), timeout_ms: 500 };
    match timeout {
        MakeParallelError::TaskTimeout { task_id, timeout_ms } => {
            assert_eq!(task_id, "task_2");
            assert_eq!(timeout_ms, 500);
        }
        _ => unreachable!(),
    }

    let limit = MakeParallelError::ResourceLimitReached {
        resource: "concurrency".to_string(),
        current: 5,
        limit: 5,
    };
    assert!(matches!(limit, MakeParallelError::ResourceLimitReached { current: 5, .. }));

    assert_eq!(MakeParallelError::ShutdownInProgress, MakeParallelError::ShutdownInProgress);
}
