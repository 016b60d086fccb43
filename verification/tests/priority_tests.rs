use makeparallel::priority::PriorityQueue;

#[test]
fn test_priorities_execute_descending() {
    // Priorities submitted as [5, 1, 9, 3] with one consumer pop in the
    // order [9, 5, 3, 1].
    let mut queue: PriorityQueue<&str> = PriorityQueue::new();
    queue.push(5, "p5");
    queue.push(1, "p1");
    queue.push(9, "p9");
    queue.push(3, "p3");

    let mut served: Vec<i32> = Vec::new();
    while let Some(entry) = queue.pop() {
        served.push(entry.priority);
    }
    assert_eq!(served, vec![9, 5, 3, 1]);
}

#[test]
fn test_equal_priorities_serve_first_in_first_out() {
    let mut queue: PriorityQueue<&str> = PriorityQueue::new();
    queue.push(7, "first");
    queue.push(7, "second");
    queue.push(7, "third");

    assert_eq!(queue.pop().unwrap().item, "first");
    assert_eq!(queue.pop().unwrap().item, "second");
    assert_eq!(queue.pop().unwrap().item, "third");
    assert!(queue.pop().is_none());
}

#[test]
fn test_pop_empty_gives_nothing() {
    let mut queue: PriorityQueue<u64> = PriorityQueue::new();
    assert_eq!(queue.len(), 0);
    assert!(queue.pop().is_none());
}

#[test]
fn test_negative_priorities_come_last() {
    let mut queue: PriorityQueue<&str> = PriorityQueue::new();
    queue.push(-2, "low");
    queue.push(0, "default");
    queue.push(4, "high");

    assert_eq!(queue.pop().unwrap().item, "high");
    assert_eq!(queue.pop().unwrap().item, "default");
    assert_eq!(queue.pop().unwrap().item, "low");
}
