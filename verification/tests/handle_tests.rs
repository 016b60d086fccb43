use crossbeam::channel::unbounded;
use makeparallel::handle::FastHandle;
use makeparallel::handle::TaskHandle;
use makeparallel::progress::ProgressStore;
use makeparallel::values::TaskOutcome;
use makeparallel::values::TaskValue;

fn fresh_handle() -> (crossbeam::channel::Sender<TaskOutcome>, TaskHandle) {
    let (sender, receiver) = unbounded();
    let handle = TaskHandle::new("task_0".to_string(), "job".to_string(), None, 0, receiver);
    (sender, handle)
}

#[test]
fn test_try_get_before_delivery_is_not_ready() {
    let (_sender, mut handle) = fresh_handle();
    assert!(!handle.is_ready());
    assert_eq!(handle.try_get(), None);
    assert!(!handle.is_ready());
}

#[test]
fn test_get_returns_delivered_value() {
    let (sender, mut handle) = fresh_handle();
    assert!(sender.send(Ok(TaskValue::Int(17))).is_ok());
    assert_eq!(handle.get(), Ok(TaskValue::Int(17)));
    assert!(handle.is_ready());
}

#[test]
fn test_get_twice_returns_identical_cached_outcome() {
    // The second read returns exactly what the first did, and the underlying
    // channel is not consulted again: a second value sits untouched.
    let (sender, mut handle) = fresh_handle();
    assert!(sender.send(Ok(TaskValue::Int(1))).is_ok());
    assert!(sender.send(Ok(TaskValue::Int(2))).is_ok());
    let first = handle.get();
    let second = handle.get();
    assert_eq!(first, Ok(TaskValue::Int(1)));
    assert_eq!(second, first);
}

#[test]
fn test_try_get_caches_like_get() {
    let (sender, mut handle) = fresh_handle();
    assert!(sender.send(Ok(TaskValue::Text("done".to_string()))).is_ok());
    let first = handle.try_get();
    assert_eq!(first, Some(Ok(TaskValue::Text("done".to_string()))));
    assert_eq!(handle.try_get(), first);
    assert_eq!(handle.get(), Ok(TaskValue::Text("done".to_string())));
}

#[test]
fn test_cancel_marks_complete_but_completion_wins() {
    // Documented choice on the cancel-versus-late-result race: completion
    // wins. Cancelling marks the handle complete at once, but a genuine
    // result that still arrives is returned and cached as usual.
    let (sender, mut handle) = fresh_handle();
    handle.cancel();
    assert!(handle.is_cancelled());
    assert!(handle.is_ready());

    assert!(sender.send(Ok(TaskValue::Int(99))).is_ok());
    assert_eq!(handle.get(), Ok(TaskValue::Int(99)));
    assert_eq!(handle.get(), Ok(TaskValue::Int(99)));
    assert!(handle.is_cancelled());
}

#[test]
fn test_get_on_closed_channel_reports_channel_failure() {
    let (sender, mut handle) = fresh_handle();
    drop(sender);
    match handle.get() {
        Err(e) => {
            assert_eq!(e.error_type, "ChannelError");
            assert_eq!(e.error_message, "task result channel closed unexpectedly");
            assert_eq!(e.task_id, "task_0");
        }
        Ok(_) => panic!("a closed, empty channel cannot produce a value"),
    }
    assert!(!handle.is_ready());
}

#[test]
fn test_handle_metadata() {
    let (_sender, mut handle) = fresh_handle();
    assert_eq!(handle.get_metadata("owner"), None);
    handle.set_metadata("owner".to_string(), "tests".to_string());
    handle.set_metadata("stage".to_string(), "one".to_string());
    handle.set_metadata("owner".to_string(), "suite".to_string());

    assert_eq!(handle.get_metadata("owner"), Some("suite".to_string()));
    assert_eq!(handle.get_metadata("stage"), Some("one".to_string()));

    let all = handle.get_all_metadata();
    assert_eq!(all.len(), 2);
    assert_eq!(all[0], ("owner".to_string(), "suite".to_string()));
    assert_eq!(all[1], ("stage".to_string(), "one".to_string()));
}

#[test]
fn test_handle_accessors() {
    let (_sender, handle) = fresh_handle();
    assert_eq!(handle.get_name(), "job");
    assert_eq!(handle.get_task_id(), "task_0");
    assert_eq!(handle.get_timeout(), None);
    assert_eq!(handle.elapsed_ms(250), 250);
}

#[test]
fn test_handle_progress_reads_store() {
    let (_sender, handle) = fresh_handle();
    let mut store = ProgressStore::new();
    assert_eq!(handle.get_progress(&store), 0);
    store.set("task_0".to_string(), 650000);
    assert_eq!(handle.get_progress(&store), 650000);
}

#[test]
fn test_fast_handle_reduced_surface() {
    let (sender, receiver) = unbounded();
    let mut handle = FastHandle::new(receiver);
    assert!(!handle.is_ready());
    assert_eq!(handle.try_get(), None);
    assert!(sender.send(Ok(TaskValue::Truth(true))).is_ok());
    assert_eq!(handle.get(), Ok(TaskValue::Truth(true)));
    assert!(handle.is_ready());
    assert_eq!(handle.get(), Ok(TaskValue::Truth(true)));
}
