use offload::queue::reached_watermark;
use offload::queue::QueueBuilder;

#[test]
fn watermark_comparison() {
    assert_eq!(reached_watermark(0, 0), true);
    assert_eq!(reached_watermark(0, 1), false);
    assert_eq!(reached_watermark(1, 1), true);
    assert_eq!(reached_watermark(2, 1), true);
    assert_eq!(reached_watermark(499, 500), false);
    assert_eq!(reached_watermark(500, 500), true);
}

#[test]
fn mpmc_push_pop_max_len() {
    let (mut tx, mut rx) = QueueBuilder::new().with_max_len(1).build();
    let (mut tx2, mut rx2) = (tx.clone(), rx.clone());

    tx.push(());
    tx2.push(());

    assert_eq!(true, tx.is_full());
    assert_eq!(true, tx2.is_full());

    let _ = rx.try_pop().unwrap();
    let _ = rx2.try_pop().unwrap();

    assert_eq!(false, tx.is_full());
    assert_eq!(false, tx2.is_full());
}

#[test]
fn mpmc_push_pop() {
    let (mut tx, mut rx) = QueueBuilder::new().build();
    let (mut tx2, mut rx2) = (tx.clone(), rx.clone());

    tx.push(());
    tx2.push(());

    let pop1 = rx.try_pop();
    let pop2 = rx2.try_pop();

    assert!(pop1.is_some() && pop2.is_some());
}

#[test]
fn fifo_per_single_producer() {
    let (mut tx, mut rx) = QueueBuilder::new().build();

    tx.push(1u64);
    tx.push(2u64);
    tx.push(3u64);

    assert_eq!(rx.try_pop(), Some(1));
    assert_eq!(rx.try_pop(), Some(2));

    tx.push(4u64);

    assert_eq!(rx.try_pop(), Some(3));
    assert_eq!(rx.try_pop(), Some(4));
    assert_eq!(rx.try_pop(), None);
}

#[test]
fn unmonitored_queue_never_full() {
    let (mut tx, _rx) = QueueBuilder::new().build();

    assert_eq!(false, tx.is_full());

    tx.push("work".to_string());
    tx.push("more work".to_string());

    assert_eq!(false, tx.is_full());
}

#[test]
fn watermark_scenario() {
    let (mut tx, mut rx) = QueueBuilder::new().with_max_len(1).build();

    tx.push("a".to_string());
    assert_eq!(true, tx.is_full());

    // No rejection at push time: the watermark is advisory.
    tx.push("b".to_string());
    assert_eq!(true, tx.is_full());

    // One of the two messages is gone, but one is still outstanding, so the
    // queue still reports full against a watermark of 1.
    assert_eq!(rx.try_pop(), Some("a".to_string()));
    assert_eq!(true, tx.is_full());

    assert_eq!(rx.try_pop(), Some("b".to_string()));
    assert_eq!(false, tx.is_full());

    // Popping an empty queue is a normal absent result, not an error.
    assert_eq!(rx.try_pop(), None);
}

#[test]
fn clones_share_the_queue() {
    let (tx, mut rx) = QueueBuilder::new().build();
    let mut tx2 = tx.clone();
    let mut rx2 = rx.clone();

    tx2.push(41u64);
    assert_eq!(rx.try_pop(), Some(41));

    let mut tx3 = tx.clone();
    tx3.push(42u64);
    assert_eq!(rx2.try_pop(), Some(42));
}

#[test]
fn many_producers_lose_nothing() {
    let (tx, mut rx) = QueueBuilder::new().build();

    // Three producer handles, four messages each, interleaved: the drain
    // yields exactly twelve messages.
    let mut producers = vec![tx.clone(), tx.clone(), tx.clone()];
    for round in 0u64..4 {
        for (which, producer) in producers.iter_mut().enumerate() {
            producer.push(which as u64 * 10 + round);
        }
    }

    let mut got = Vec::new();
    while let Some(msg) = rx.try_pop() {
        got.push(msg);
    }

    assert_eq!(got.len(), 12);
    got.sort();
    assert_eq!(got, vec![0, 1, 2, 3, 10, 11, 12, 13, 20, 21, 22, 23]);
}

#[test]
fn zero_watermark_full_from_birth() {
    let (mut tx, mut rx) = QueueBuilder::<u64>::new().with_max_len(0).build();

    // Counter 0 >= watermark 0: the queue reports full before any push.
    assert_eq!(true, tx.is_full());

    tx.push(1);
    assert_eq!(true, tx.is_full());

    assert_eq!(rx.try_pop(), Some(1));
    assert_eq!(true, tx.is_full());
}

#[test]
fn counter_shared_across_clones() {
    let (mut tx, rx) = QueueBuilder::new().with_max_len(2).build();
    let mut tx2 = tx.clone();

    tx.push(1u64);
    assert_eq!(false, tx.is_full());
    assert_eq!(false, tx2.is_full());

    tx2.push(2u64);
    assert_eq!(true, tx.is_full());
    assert_eq!(true, tx2.is_full());

    drop(rx);
}
