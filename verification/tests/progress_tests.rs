use makeparallel::engine::Engine;
use makeparallel::errors::MakeParallelError;
use makeparallel::progress::CurrentTask;
use makeparallel::progress::ProgressStore;
use makeparallel::progress::PROGRESS_SCALE;

#[test]
fn test_task_progress_map_insert_and_get() {
    let mut store = ProgressStore::new();
    let task_id = "test_progress_task";

    store.set(task_id.to_string(), 500000);
    let progress = store.get(task_id);
    assert_eq!(progress, Some(500000));

    store.set(task_id.to_string(), 750000);
    let updated_progress = store.get(task_id);
    assert_eq!(updated_progress, Some(750000));

    store.clear_task(task_id);
    assert_eq!(store.get(task_id), None);
}

#[test]
fn test_clear_task_progress() {
    let mut store = ProgressStore::new();
    let task_id = "cleanup_test_task";

    store.set(task_id.to_string(), 1000000);
    assert!(store.contains(task_id));

    store.clear_task(task_id);
    assert!(!store.contains(task_id));
}

#[test]
fn test_multiple_tasks_progress() {
    let mut store = ProgressStore::new();
    let task1 = "multi_task_1";
    let task2 = "multi_task_2";
    let task3 = "multi_task_3";

    store.set(task1.to_string(), 300000);
    store.set(task2.to_string(), 600000);
    store.set(task3.to_string(), 900000);

    assert_eq!(store.get(task1), Some(300000));
    assert_eq!(store.get(task2), Some(600000));
    assert_eq!(store.get(task3), Some(900000));

    store.clear_task(task1);
    store.clear_task(task2);
    store.clear_task(task3);
}

#[test]
fn test_progress_boundaries() {
    let mut store = ProgressStore::new();
    let task_id = "boundary_task";

    store.set(task_id.to_string(), 0);
    assert_eq!(store.get(task_id), Some(0));

    store.set(task_id.to_string(), 1000000);
    assert_eq!(store.get(task_id), Some(1000000));

    store.set(task_id.to_string(), 500000);
    assert_eq!(store.get(task_id), Some(500000));

    store.clear_task(task_id);
}

#[test]
fn test_memory_cleanup() {
    let mut store = ProgressStore::new();
    let task_id = "memory_cleanup_test";

    store.set(task_id.to_string(), 500000);
    assert!(store.contains(task_id));

    store.clear_task(task_id);

    assert!(!store.contains(task_id));
    assert_eq!(store.get(task_id), None);
}

#[test]
fn test_dashmap_remove() {
    let mut store = ProgressStore::new();

    store.set("task1".to_string(), 500000);
    assert!(store.contains("task1"));

    store.clear_task("task1");
    assert!(!store.contains("task1"));
}

#[test]
fn test_progress_value_boundaries() {
    let mut store = ProgressStore::new();

    store.set("task".to_string(), 0);
    assert_eq!(store.get("task"), Some(0));

    store.set("task".to_string(), 1000000);
    assert_eq!(store.get("task"), Some(1000000));

    store.set("task".to_string(), 500000);
    assert_eq!(store.get("task"), Some(500000));
}

#[test]
fn test_report_progress_rejects_out_of_range() {
    // A fraction above full completion (1.5 of 1.0) fails validation.
    let mut engine = Engine::new();
    let ctx = CurrentTask::new();
    let r = engine.report_progress(1500000, Some("p_task".to_string()), &ctx);
    match r {
        Err(MakeParallelError::InvalidConfiguration { message }) => {
            assert_eq!(message, "progress must be between 0.0 and 1.0");
        }
        _ => panic!("out-of-range progress must be rejected"),
    }
}

#[test]
fn test_report_progress_then_get() {
    // 0.4 of completion, then read back for the same id.
    let mut engine = Engine::new();
    let ctx = CurrentTask::new();
    let r = engine.report_progress(400000, Some("p_task".to_string()), &ctx);
    assert!(r.is_ok());
    assert_eq!(engine.progress.get("p_task"), Some(400000));
    assert_eq!(engine.progress.get_or_zero("p_task"), 400000);
    assert_eq!(engine.progress.get_or_zero("unseen_task"), 0);
}

#[test]
fn test_report_progress_uses_current_task_marker() {
    let mut engine = Engine::new();
    let mut ctx = CurrentTask::new();
    ctx.set_current_task_id(Some("marked_task".to_string()));
    let r = engine.report_progress(250000, None, &ctx);
    let report = r.expect("marker should resolve the task id");
    assert_eq!(report.task_id, "marked_task");
    assert!(!report.invoke_callback);
    assert_eq!(engine.progress.get("marked_task"), Some(250000));
}

#[test]
fn test_report_progress_without_task_id_fails() {
    let mut engine = Engine::new();
    let ctx = CurrentTask::new();
    let r = engine.report_progress(100000, None, &ctx);
    match r {
        Err(MakeParallelError::InvalidConfiguration { message }) => {
            assert!(message.starts_with("No task_id found."));
        }
        _ => panic!("a report with no resolvable task id must fail"),
    }
}

#[test]
fn test_report_progress_signals_registered_callback() {
    let mut engine = Engine::new();
    let ctx = CurrentTask::new();
    engine.register_progress_callback("cb_task".to_string());
    let report = engine
        .report_progress(PROGRESS_SCALE, Some("cb_task".to_string()), &ctx)
        .expect("valid progress");
    assert!(report.invoke_callback);
    engine.unregister_progress_callback("cb_task");
    let report2 = engine
        .report_progress(0, Some("cb_task".to_string()), &ctx)
        .expect("valid progress");
    assert!(!report2.invoke_callback);
}
