use makeparallel::registry::ActiveSet;
use makeparallel::registry::TaskCounter;
use makeparallel::progress::CurrentTask;
use makeparallel::text::decimal_string;
use makeparallel::text::make_task_id;
use makeparallel::text::str_eq;

#[test]
fn test_thread_local_task_id() {
    let mut ctx = CurrentTask::new();
    assert_eq!(ctx.get_current_task_id(), None, "Initial task_id should be None");

    ctx.set_current_task_id(Some("test_task_123".to_string()));
    assert_eq!(
        ctx.get_current_task_id(),
        Some("test_task_123".to_string()),
        "Task_id should be set"
    );

    ctx.set_current_task_id(None);
    assert_eq!(ctx.get_current_task_id(), None, "Task_id should be cleared");
}

#[test]
fn test_task_id_counter_increments() {
    let mut counter = TaskCounter::new();
    let start = counter.next;

    let id1 = counter.next;
    counter.fresh_id();
    let id2 = counter.next;
    counter.fresh_id();
    let id3 = counter.next;
    counter.fresh_id();

    assert_eq!(id2, id1 + 1);
    assert_eq!(id3, id2 + 1);
    assert!(id1 >= start);
}

#[test]
fn test_active_tasks_registration() {
    let mut active = ActiveSet::new();
    let initial_count = active.count();

    active.register_task("test_task_reg_1".to_string());
    assert_eq!(active.count(), initial_count + 1);

    active.register_task("test_task_reg_2".to_string());
    assert_eq!(active.count(), initial_count + 2);

    active.unregister_task("test_task_reg_1");
    assert_eq!(active.count(), initial_count + 1);

    active.unregister_task("test_task_reg_2");
    assert_eq!(active.count(), initial_count);
}

#[test]
fn test_unregister_removes_every_occurrence() {
    let mut active = ActiveSet::new();
    active.register_task("twice".to_string());
    active.register_task("other".to_string());
    active.register_task("twice".to_string());
    assert_eq!(active.count(), 3);

    active.unregister_task("twice");
    assert_eq!(active.count(), 1);
    assert!(active.contains("other"));
    assert!(!active.contains("twice"));
}

#[test]
fn test_task_labels_are_sequential_and_unique() {
    let mut counter = TaskCounter::new();
    let a = counter.fresh_id();
    let b = counter.fresh_id();
    let c = counter.fresh_id();
    assert_eq!(a, "task_0");
    assert_eq!(b, "task_1");
    assert_eq!(c, "task_2");
    assert_ne!(a, b);
    assert_ne!(b, c);
}

#[test]
fn test_decimal_rendering() {
    assert_eq!(decimal_string(0), "0");
    assert_eq!(decimal_string(7), "7");
    assert_eq!(decimal_string(10), "10");
    assert_eq!(decimal_string(409), "409");
    assert_eq!(decimal_string(18446744073709551615), "18446744073709551615");
    assert_eq!(make_task_id(42), "task_42");
}

#[test]
fn test_str_eq_exact() {
    assert!(str_eq("task_1", "task_1"));
    assert!(!str_eq("task_1", "task_10"));
    assert!(!str_eq("task_1", "task_2"));
    assert!(str_eq("", ""));
}
