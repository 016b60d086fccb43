use crossbeam::channel::unbounded;
use makeparallel::errors::TaskError;
use makeparallel::gather::gather;
use makeparallel::gather::gather_none;
use makeparallel::gather::gather_raise;
use makeparallel::gather::gather_skip;
use makeparallel::gather::parse_on_error;
use makeparallel::gather::GatherError;
use makeparallel::gather::OnErrorPolicy;
use makeparallel::handle::TaskHandle;
use makeparallel::values::TaskOutcome;
use makeparallel::values::TaskValue;

fn failure(task_id: &str, message: &str) -> TaskError {
    TaskError {
        task_name: "job".to_string(),
        elapsed_ms: 1,
        error_message: message.to_string(),
        error_type: "ValueError".to_string(),
        task_id: task_id.to_string(),
    }
}

fn delivered_handle(task_id: &str, outcome: TaskOutcome) -> TaskHandle {
    let (sender, receiver) = unbounded();
    assert!(sender.send(outcome).is_ok());
    TaskHandle::new(task_id.to_string(), "job".to_string(), None, 0, receiver)
}

#[test]
fn test_gather_skip_keeps_successes_in_order() {
    // gather([ok, fail], on_error="skip") returns only the successful value,
    // preserving original order.
    let handles = vec![
        delivered_handle("task_0", Ok(TaskValue::Int(1))),
        delivered_handle("task_1", Err(failure("task_1", "boom"))),
    ];
    let r = gather(handles, "skip").expect("skip never fails");
    assert_eq!(r, vec![Some(TaskValue::Int(1))]);
}

#[test]
fn test_gather_skip_order_over_many() {
    let outcomes: Vec<TaskOutcome> = vec![
        Ok(TaskValue::Int(1)),
        Err(failure("task_1", "x")),
        Ok(TaskValue::Int(3)),
        Err(failure("task_3", "y")),
        Ok(TaskValue::Int(5)),
    ];
    let r = gather_skip(&outcomes);
    assert_eq!(r, vec![TaskValue::Int(1), TaskValue::Int(3), TaskValue::Int(5)]);
}

#[test]
fn test_gather_raise_returns_first_failure() {
    let outcomes: Vec<TaskOutcome> = vec![
        Ok(TaskValue::Int(1)),
        Err(failure("task_1", "first")),
        Err(failure("task_2", "second")),
    ];
    match gather_raise(&outcomes) {
        Err(e) => {
            assert_eq!(e.task_id, "task_1");
            assert_eq!(e.error_message, "first");
        }
        Ok(_) => panic!("a failure must be re-raised"),
    }

    let all_ok: Vec<TaskOutcome> = vec![Ok(TaskValue::Int(1)), Ok(TaskValue::Int(2))];
    assert_eq!(gather_raise(&all_ok), Ok(vec![TaskValue::Int(1), TaskValue::Int(2)]));
}

#[test]
fn test_gather_none_keeps_placeholders_in_position() {
    let outcomes: Vec<TaskOutcome> = vec![
        Ok(TaskValue::Int(1)),
        Err(failure("task_1", "x")),
        Ok(TaskValue::Int(3)),
    ];
    let r = gather_none(&outcomes);
    assert_eq!(r, vec![Some(TaskValue::Int(1)), None, Some(TaskValue::Int(3))]);
}

#[test]
fn test_gather_invalid_policy_is_rejected() {
    let handles = vec![delivered_handle("task_0", Ok(TaskValue::Int(1)))];
    match gather(handles, "ignore") {
        Err(GatherError::InvalidPolicy { message }) => {
            assert_eq!(message, "on_error must be 'raise', 'skip', or 'none'");
        }
        _ => panic!("an unknown policy must be rejected"),
    }
}

#[test]
fn test_gather_raise_through_handles() {
    let handles = vec![
        delivered_handle("task_0", Ok(TaskValue::Int(1))),
        delivered_handle("task_1", Err(failure("task_1", "boom"))),
    ];
    match gather(handles, "raise") {
        Err(GatherError::TaskFailed { error }) => assert_eq!(error.task_id, "task_1"),
        _ => panic!("raise re-raises the first failure"),
    }
}

#[test]
fn test_gather_none_through_handles() {
    let handles = vec![
        delivered_handle("task_0", Ok(TaskValue::Int(7))),
        delivered_handle("task_1", Err(failure("task_1", "boom"))),
    ];
    let r = gather(handles, "none").expect("none never fails");
    assert_eq!(r, vec![Some(TaskValue::Int(7)), None]);
}

#[test]
fn test_task_scope_blocks_on_all_at_exit() {
    let mut scope = makeparallel::gather::TaskScope::new(Some(2000));
    assert_eq!(scope.get_timeout(), Some(2000));
    scope.add(delivered_handle("task_0", Ok(TaskValue::Int(1))));
    scope.add(delivered_handle("task_1", Ok(TaskValue::Int(2))));
    assert_eq!(scope.len(), 2);
    let outcomes = scope.finish();
    assert_eq!(outcomes, vec![Ok(TaskValue::Int(1)), Ok(TaskValue::Int(2))]);
}

#[test]
fn test_parse_on_error_names() {
    assert_eq!(parse_on_error("raise"), Ok(OnErrorPolicy::Raise));
    assert_eq!(parse_on_error("skip"), Ok(OnErrorPolicy::Skip));
    assert_eq!(parse_on_error("none"), Ok(OnErrorPolicy::NoneValue));
    assert!(parse_on_error("").is_err());
    assert!(parse_on_error("Raise").is_err());
}
