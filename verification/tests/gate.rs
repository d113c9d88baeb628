use offload::backpressure::decide;
use offload::backpressure::Backpressure;
use offload::errors::Error;
use offload::queue::QueueBuilder;

#[test]
fn empty_gate_always_permits() {
    let gate = Backpressure::new();

    assert_eq!(gate.check(), Ok(()));
    assert_eq!(gate.check(), Ok(()));
}

#[test]
fn full_queue_overloads_gate() {
    let (mut full_tx, _full_rx) = QueueBuilder::new().with_max_len(1).build();
    let (idle_tx, _idle_rx) = QueueBuilder::<u64>::new().with_max_len(5).build();

    full_tx.push("work".to_string());

    let gate = Backpressure::new()
        .add_queue(full_tx.clone())
        .add_queue(idle_tx.clone());

    assert_eq!(gate.check(), Err(Error::QueueIsFull));
}

#[test]
fn full_queue_overloads_gate_either_order() {
    let (mut full_tx, _full_rx) = QueueBuilder::new().with_max_len(1).build();
    let (idle_tx, _idle_rx) = QueueBuilder::<u64>::new().with_max_len(5).build();

    full_tx.push("work".to_string());

    let gate = Backpressure::new()
        .add_queue(idle_tx.clone())
        .add_queue(full_tx.clone());

    assert_eq!(gate.check(), Err(Error::QueueIsFull));
}

#[test]
fn gate_of_idle_queues_permits() {
    let (a_tx, _a_rx) = QueueBuilder::<u64>::new().with_max_len(3).build();
    let (b_tx, _b_rx) = QueueBuilder::<String>::new().with_max_len(3).build();

    let gate = Backpressure::new().add_queue(a_tx).add_queue(b_tx);

    assert_eq!(gate.check(), Ok(()));
}

#[test]
fn gate_recovers_after_drain() {
    let (mut tx, mut rx) = QueueBuilder::new().with_max_len(1).build();
    let gate = Backpressure::new().add_queue(tx.clone());

    tx.push(7u64);
    assert_eq!(gate.check(), Err(Error::QueueIsFull));

    assert_eq!(rx.try_pop(), Some(7));
    assert_eq!(gate.check(), Ok(()));
}

#[test]
fn zero_watermark_queue_overloads_from_birth() {
    let (tx, _rx) = QueueBuilder::<u64>::new().with_max_len(0).build();

    let gate = Backpressure::new().add_queue(tx);

    assert_eq!(gate.check(), Err(Error::QueueIsFull));
}

#[test]
fn unmonitored_queue_cannot_overload() {
    let (mut tx, _rx) = QueueBuilder::new().build();

    tx.push(1u64);
    tx.push(2u64);

    let gate = Backpressure::new().add_queue(tx.clone());

    assert_eq!(gate.check(), Ok(()));
}

#[test]
fn decide_condenses_signals() {
    assert_eq!(decide(&vec![]), Ok(()));
    assert_eq!(decide(&vec![false, false]), Ok(()));
    assert_eq!(decide(&vec![true, false]), Err(Error::QueueIsFull));
    assert_eq!(decide(&vec![false, true]), Err(Error::QueueIsFull));
    assert_eq!(decide(&vec![true, true]), Err(Error::QueueIsFull));
}
