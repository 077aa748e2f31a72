use bloodray::queue::Queue;

#[test]
fn queue_clear() {
    let capacity = 123;
    let mut queue: Queue<bool> = Queue::new(capacity);

    queue.push(true);
    queue.push(false);
    queue.push(true);
    queue.push(false);

    queue.clear();
    let expected_items: Vec<bool> = vec![];
    assert_eq!(expected_items, queue.items());

    assert_eq!(0, queue.len());
}

#[test]
fn queue_len() {
    let capacity = 123;
    let mut queue: Queue<bool> = Queue::new(capacity);

    queue.push(true);
    queue.push(false);
    queue.push(true);
    queue.push(false);

    assert_eq!(4, queue.len());
}

#[test]
fn queue_new() {
    let capacity = 123;
    let queue: Queue<bool> = Queue::new(capacity);
    let expected_items: Vec<bool> = vec![];

    assert_eq!(capacity, queue.capacity());
    assert_eq!(expected_items, queue.items());
}

#[test]
fn queue_push() {
    let capacity = 123;
    let mut queue: Queue<bool> = Queue::new(capacity);
    let expected_items: Vec<bool> = vec![true, false, true, false];

    queue.push(true);
    queue.push(false);
    queue.push(true);
    queue.push(false);

    assert_eq!(expected_items, queue.items());
}

#[test]
fn queue_pop() {
    let capacity = 123;
    let mut queue: Queue<bool> = Queue::new(capacity);

    queue.push(true);
    queue.push(false);
    queue.push(true);
    queue.push(false);

    assert_eq!(vec![true, false, true, false], queue.items());

    let item = queue.pop();
    assert_eq!(Some(true), item);
    assert_eq!(vec![false, true, false], queue.items());

    let item = queue.pop();
    assert_eq!(Some(false), item);
    assert_eq!(vec![true, false], queue.items());

    let item = queue.pop();
    assert_eq!(Some(true), item);
    assert_eq!(vec![false], queue.items());

    let item = queue.pop();
    assert_eq!(Some(false), item);
    assert_eq!(0, queue.len());

    let item = queue.pop();
    assert_eq!(None, item);
    assert_eq!(0, queue.len());
}

#[test]
fn queue_is_empty_reports_len_zero() {
    let mut queue: Queue<u32> = Queue::new(4);
    assert!(queue.is_empty());

    queue.push(7);
    assert!(!queue.is_empty());

    queue.pop();
    assert!(queue.is_empty());
}
