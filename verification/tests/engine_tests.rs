use makeparallel::admission::slot_wait_step;
use makeparallel::admission::SlotWait;
use makeparallel::admission::memory_within_limit;
use makeparallel::dispatch::submit_task;
use makeparallel::engine::make_cancellation_error;
use makeparallel::engine::wrap_failure;
use makeparallel::engine::DrainPoll;
use makeparallel::engine::Engine;
use makeparallel::errors::MakeParallelError;

#[test]
fn test_shutdown_flag() {
    let mut engine = Engine::new();
    engine.reset_shutdown();
    assert!(!engine.is_shutdown_requested());

    engine.shutdown_request();
    assert!(engine.is_shutdown_requested());

    engine.reset_shutdown();
    assert!(!engine.is_shutdown_requested());
}

#[test]
fn test_admission_rejects_under_shutdown() {
    let mut engine = Engine::new();
    engine.shutdown_request();
    match engine.admit_task() {
        Err(MakeParallelError::ShutdownInProgress) => {}
        _ => panic!("admission under shutdown must fail fast"),
    }
    assert_eq!(engine.get_active_task_count(), 0);
}

#[test]
fn test_admission_registers_fresh_ids() {
    let mut engine = Engine::new();
    let a = engine.admit_task().expect("no ceilings, no shutdown");
    let b = engine.admit_task().expect("no ceilings, no shutdown");
    assert_eq!(a, "task_0");
    assert_eq!(b, "task_1");
    assert_ne!(a, b);
    assert_eq!(engine.get_active_task_count(), 2);
}

#[test]
fn test_submissions_drain_registry() {
    // For any number of submissions, once every task has finished the
    // registry is empty again; tried here for zero through three.
    for n in 0..4usize {
        let mut engine = Engine::new();
        let mut ids: Vec<String> = Vec::new();
        for _ in 0..n {
            ids.push(engine.admit_task().expect("admission is open"));
        }
        assert_eq!(engine.get_active_task_count(), n);
        for id in &ids {
            engine.finish_task(id, "op", 1, true);
        }
        assert_eq!(engine.get_active_task_count(), 0);
    }
}

#[test]
fn test_slot_wait_blocks_when_full() {
    // With a ceiling of one and one active task, a submission sleeps; once
    // the running task is done it proceeds. The backoff doubles up to its
    // cap.
    match slot_wait_step(Some(1), 1, false, 0, 10) {
        SlotWait::Sleep { next_backoff_ms } => assert_eq!(next_backoff_ms, 20),
        SlotWait::Proceed => panic!("a full slot table must make the submission wait"),
    }
    match slot_wait_step(Some(1), 0, false, 0, 10) {
        SlotWait::Proceed => {}
        SlotWait::Sleep { .. } => panic!("a free slot must let the submission proceed"),
    }
    match slot_wait_step(Some(1), 1, false, 0, 800) {
        SlotWait::Sleep { next_backoff_ms } => assert_eq!(next_backoff_ms, 1000),
        SlotWait::Proceed => panic!("a full slot table must make the submission wait"),
    }
}

#[test]
fn test_slot_wait_aborts_on_shutdown_or_ceiling() {
    match slot_wait_step(Some(1), 1, true, 0, 10) {
        SlotWait::Proceed => {}
        SlotWait::Sleep { .. } => panic!("shutdown must abort the slot wait"),
    }
    match slot_wait_step(Some(1), 1, false, 300001, 10) {
        SlotWait::Proceed => {}
        SlotWait::Sleep { .. } => panic!("the wait ceiling must abort the slot wait"),
    }
    match slot_wait_step(None, 1000, false, 0, 10) {
        SlotWait::Proceed => {}
        SlotWait::Sleep { .. } => panic!("no ceiling, no wait"),
    }
}

#[test]
fn test_shutdown_drain_scenario() {
    // One still-running long task: the drain times out and the count stays
    // positive; after the task finishes, a second drain succeeds.
    let mut engine = Engine::new();
    let id = engine.admit_task().expect("admission is open");
    engine.shutdown_request();

    match engine.drain_step(200, 200) {
        DrainPoll::TimedOut => {}
        _ => panic!("a busy registry past the deadline must time out"),
    }
    assert!(engine.get_active_task_count() > 0);

    engine.finish_task(&id, "long_op", 250, true);
    match engine.drain_step(0, 200) {
        DrainPoll::Done => {}
        _ => panic!("an empty registry drains cleanly"),
    }

    match Engine::new().drain_step(0, 200) {
        DrainPoll::Done => {}
        _ => panic!("nothing active drains at once"),
    }
}

#[test]
fn test_drain_waits_before_deadline() {
    let mut engine = Engine::new();
    let _id = engine.admit_task().expect("admission is open");
    match engine.drain_step(100, 200) {
        DrainPoll::Wait => {}
        _ => panic!("before the deadline the drain keeps polling"),
    }
}

#[test]
fn test_worker_preflight_reasons() {
    let mut engine = Engine::new();
    assert_eq!(engine.worker_preflight(false), None);
    assert_eq!(
        engine.worker_preflight(true),
        Some("Task was cancelled or timed out".to_string())
    );
    engine.shutdown_request();
    assert_eq!(
        engine.worker_preflight(false),
        Some("Task cancelled: shutdown requested".to_string())
    );
    assert_eq!(
        engine.worker_preflight(true),
        Some("Task cancelled: shutdown requested".to_string())
    );
}

#[test]
fn test_finish_task_records_and_cleans_up() {
    let mut engine = Engine::new();
    let id = engine.admit_task().expect("admission is open");
    engine.register_progress_callback(id.clone());
    engine.progress.set(id.clone(), 500000);

    engine.finish_task(&id, "cleanup_op", 42, false);

    assert_eq!(engine.get_active_task_count(), 0);
    assert!(!engine.progress.contains(&id));
    let m = engine.metrics.get_metrics("cleanup_op").unwrap();
    assert_eq!(m.total_tasks, 1);
    assert_eq!(m.failed_tasks, 1);
    assert_eq!(m.total_execution_time_ms, 42);
}

#[test]
fn test_memory_within_limit_boundaries() {
    // Usage strictly above the ceiling fails; reaching it exactly passes.
    assert!(memory_within_limit(75, 100, 75));
    assert!(!memory_within_limit(76, 100, 75));
    assert!(memory_within_limit(0, 100, 1));
    assert!(!memory_within_limit(100, 100, 99));
    assert!(memory_within_limit(100, 100, 100));
}

#[test]
fn test_configure_memory_limit_validation() {
    let mut engine = Engine::new();
    match engine.configure_memory_limit(0) {
        Err(MakeParallelError::InvalidConfiguration { message }) => {
            assert_eq!(message, "max_memory_percent must be between 0 and 100");
        }
        _ => panic!("zero percent must be rejected"),
    }
    assert!(engine.configure_memory_limit(101).is_err());
    assert!(engine.configure_memory_limit(100).is_ok());
    assert_eq!(engine.config.memory_limit_percent, Some(100));
}

#[test]
fn test_error_builders() {
    let cancel = make_cancellation_error("op", "task_9", 17, "Task was cancelled or timed out".to_string());
    assert_eq!(cancel.error_type, "CancellationError");
    assert_eq!(cancel.task_name, "op");
    assert_eq!(cancel.task_id, "task_9");
    assert_eq!(cancel.elapsed_ms, 17);

    let failure = wrap_failure("op", "task_9", 3, "boom".to_string(), "ValueError".to_string());
    assert_eq!(failure.error_message, "boom");
    assert_eq!(failure.error_type, "ValueError");
}

#[test]
fn test_thread_pool_info() {
    let mut engine = Engine::new();
    let (configured, _) = engine.get_thread_pool_info();
    assert!(!configured);

    engine.configure_thread_pool(Some(3), None);
    let (configured, threads) = engine.get_thread_pool_info();
    assert!(configured);
    assert_eq!(threads, 3);
}

#[test]
fn test_submit_task_builds_matching_handle_and_ticket() {
    let mut engine = Engine::new();
    let (handle, ticket) =
        submit_task(&mut engine, "job".to_string(), Some(1000), 5, Vec::new()).expect("open");
    assert_eq!(handle.get_task_id(), ticket.task_id);
    assert_eq!(handle.get_name(), "job");
    assert_eq!(handle.get_timeout(), Some(1000));
    assert!(!handle.is_ready());
    assert!(!handle.is_cancelled());
    assert_eq!(handle.elapsed_ms(12), 7);
    assert_eq!(engine.get_active_task_count(), 1);
}

#[test]
fn test_priority_worker_flag() {
    let mut engine = Engine::new();
    assert!(!engine.priority_worker_running);
    let was_running = engine.start_priority_worker();
    assert!(!was_running);
    assert!(engine.priority_worker_running);
    let was_running = engine.start_priority_worker();
    assert!(was_running);
    engine.stop_priority_worker();
    assert!(!engine.priority_worker_running);

    engine.start_priority_worker();
    engine.shutdown_request();
    assert!(!engine.priority_worker_running);
}
