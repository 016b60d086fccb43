use makeparallel::engine::Engine;
use makeparallel::metrics::MetricsRecorder;

#[test]
fn test_task_metrics_recording() {
    let mut metrics = MetricsRecorder::new();
    metrics.reset_metrics();

    let func_name = "test_function";
    let duration_ms = 100;

    metrics.record_task_execution(func_name, duration_ms, true);

    assert_eq!(metrics.global_total, 1);
    assert_eq!(metrics.global_completed, 1);
    assert_eq!(metrics.global_failed, 0);

    metrics.record_task_execution(func_name, duration_ms, false);

    assert_eq!(metrics.global_total, 2);
    assert_eq!(metrics.global_completed, 1);
    assert_eq!(metrics.global_failed, 1);

    metrics.reset_metrics();
}

#[test]
fn test_max_concurrent_tasks() {
    let mut engine = Engine::new();
    engine.set_max_concurrent_tasks(5);
    assert_eq!(engine.config.max_concurrent, Some(5));

    engine.set_max_concurrent_tasks(10);
    assert_eq!(engine.config.max_concurrent, Some(10));
}

#[test]
fn test_check_memory_ok() {
    let mut engine = Engine::new();
    assert!(engine.check_memory_ok());

    engine.configure_memory_limit(75).unwrap();

    assert!(engine.check_memory_ok());
}

#[test]
fn test_per_operation_counters_exact() {
    let mut metrics = MetricsRecorder::new();
    metrics.record_task_execution("op_a", 40, true);
    metrics.record_task_execution("op_a", 20, true);
    metrics.record_task_execution("op_a", 30, false);
    metrics.record_task_execution("op_b", 5, true);

    let a = metrics.get_metrics("op_a").expect("op_a was recorded");
    assert_eq!(a.total_tasks, 3);
    assert_eq!(a.completed_tasks, 2);
    assert_eq!(a.failed_tasks, 1);
    assert_eq!(a.total_execution_time_ms, 90);
    assert_eq!(a.average_execution_time_ms(), 30);

    let b = metrics.get_metrics("op_b").expect("op_b was recorded");
    assert_eq!(b.total_tasks, 1);
    assert_eq!(b.average_execution_time_ms(), 5);

    assert_eq!(metrics.get_metrics("op_c"), None);
}

#[test]
fn test_average_of_nothing_is_zero() {
    let metrics = MetricsRecorder::new();
    assert_eq!(metrics.get_metrics("never_ran"), None);
    let mut m2 = MetricsRecorder::new();
    m2.record_task_execution("zero_time", 0, true);
    let z = m2.get_metrics("zero_time").unwrap();
    assert_eq!(z.average_execution_time_ms(), 0);
}

#[test]
fn test_get_all_metrics_keeps_first_recording_order() {
    let mut metrics = MetricsRecorder::new();
    metrics.record_task_execution("first_op", 1, true);
    metrics.record_task_execution("second_op", 2, true);
    metrics.record_task_execution("first_op", 3, false);

    let all = metrics.get_all_metrics();
    assert_eq!(all.len(), 2);
    assert_eq!(all[0].0, "first_op");
    assert_eq!(all[1].0, "second_op");
    assert_eq!(all[0].1.total_tasks, 2);
    assert_eq!(all[1].1.total_tasks, 1);
}

#[test]
fn test_reset_metrics_clears_everything() {
    let mut metrics = MetricsRecorder::new();
    metrics.record_task_execution("op", 10, true);
    metrics.reset_metrics();
    assert_eq!(metrics.global_total, 0);
    assert_eq!(metrics.global_completed, 0);
    assert_eq!(metrics.global_failed, 0);
    assert_eq!(metrics.get_metrics("op"), None);
    assert_eq!(metrics.get_all_metrics().len(), 0);
}
