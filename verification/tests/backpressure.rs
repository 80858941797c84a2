use drip_net::queue::BoundedQueue;
use drip_net::registry::Status;

#[test]
fn full_queue_hands_the_item_back() {
    let mut q: BoundedQueue<u32> = BoundedQueue::new(2);
    assert_eq!(q.try_send(1), None);
    assert_eq!(q.try_send(2), None);
    // Capacity reached without a consumer draining: the send neither drops
    // the item nor errors it away — the producer gets it back to retry.
    assert_eq!(q.try_send(3), Some(3));
    assert_eq!(q.len(), 2);
    assert_eq!(q.capacity(), 2);
    // Once the consumer drains, the retry succeeds.
    assert_eq!(q.try_recv(), Some(1));
    assert_eq!(q.try_send(3), None);
}

#[test]
fn delivery_is_first_in_first_out() {
    let mut q: BoundedQueue<&str> = BoundedQueue::new(4);
    q.try_send("a");
    q.try_send("b");
    q.try_send("c");
    assert_eq!(q.try_recv(), Some("a"));
    assert_eq!(q.try_recv(), Some("b"));
    assert_eq!(q.try_recv(), Some("c"));
    assert_eq!(q.try_recv(), None);
}

#[test]
fn discovery_events_queue_with_backpressure() {
    let mut q: BoundedQueue<Status> = BoundedQueue::new(1);
    assert!(q
        .try_send(Status::PeerLost {
            id: "apollo".to_string()
        })
        .is_none());
    let bounced = q.try_send(Status::PeerLost {
        id: "zeus".to_string(),
    });
    match bounced {
        Some(Status::PeerLost { id }) => assert_eq!(id, "zeus"),
        _ => panic!("the queued event must come back intact"),
    }
}

#[test]
fn runtime_channel_shows_the_same_discipline() {
    // The asynchronous runtime's bounded channel behaves as the model says:
    // a send beyond capacity does not drop the value; the producer is told
    // to wait and receives its value back.
    let (tx, mut rx) = tokio::sync::mpsc::channel::<u32>(2);
    tx.try_send(1).unwrap();
    tx.try_send(2).unwrap();
    match tx.try_send(3) {
        Err(tokio::sync::mpsc::error::TrySendError::Full(v)) => assert_eq!(v, 3),
        other => panic!("expected backpressure, got {other:?}"),
    }
    assert_eq!(rx.try_recv(), Ok(1));
    tx.try_send(3).unwrap();
    assert_eq!(rx.try_recv(), Ok(2));
    assert_eq!(rx.try_recv(), Ok(3));
}
