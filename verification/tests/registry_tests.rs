//! The subscriber registry and the emitter, driven through real delivery
//! queues.

use hartex::emitter::EventEmitter;
use hartex::listener::Listeners;

#[test]
fn sequential_subscriptions_get_distinct_increasing_ids() {
    let mut listeners: Listeners<u64> = Listeners::default();
    let mut ids: Vec<u64> = Vec::new();
    for _ in 0..8 {
        let handle = listeners.add();
        ids.push(handle.id);
    }
    assert_eq!(ids.len(), 8);
    for window in ids.windows(2) {
        assert!(window[0] < window[1]);
    }
    let mut deduped = ids.clone();
    deduped.dedup();
    assert_eq!(deduped, ids);
    assert_eq!(ids, vec![0, 1, 2, 3, 4, 5, 6, 7]);
}

#[test]
fn broadcast_delivers_exactly_one_copy_to_each() {
    let mut listeners: Listeners<u64> = Listeners::default();
    let mut a = listeners.add();
    let mut b = listeners.add();
    let mut c = listeners.add();

    let delivered = listeners.broadcast(&42);
    assert_eq!(delivered, 3);

    assert_eq!(a.receiver.try_recv().unwrap(), 42);
    assert_eq!(b.receiver.try_recv().unwrap(), 42);
    assert_eq!(c.receiver.try_recv().unwrap(), 42);

    assert!(a.receiver.try_recv().is_err());
    assert!(b.receiver.try_recv().is_err());
    assert!(c.receiver.try_recv().is_err());
}

#[test]
fn each_subscriber_sees_broadcasts_in_order() {
    let mut listeners: Listeners<u64> = Listeners::default();
    let mut a = listeners.add();
    let mut b = listeners.add();

    listeners.broadcast(&1);
    listeners.broadcast(&2);
    listeners.broadcast(&3);

    assert_eq!(a.receiver.try_recv().unwrap(), 1);
    assert_eq!(a.receiver.try_recv().unwrap(), 2);
    assert_eq!(a.receiver.try_recv().unwrap(), 3);
    assert_eq!(b.receiver.try_recv().unwrap(), 1);
    assert_eq!(b.receiver.try_recv().unwrap(), 2);
    assert_eq!(b.receiver.try_recv().unwrap(), 3);
}

#[test]
fn no_value_broadcast_before_subscription_is_delivered() {
    let mut listeners: Listeners<String> = Listeners::default();
    let mut early = listeners.add();
    listeners.broadcast(&String::from("first"));
    let mut late = listeners.add();
    listeners.broadcast(&String::from("second"));

    assert_eq!(early.receiver.try_recv().unwrap(), "first");
    assert_eq!(early.receiver.try_recv().unwrap(), "second");
    assert_eq!(late.receiver.try_recv().unwrap(), "second");
    assert!(late.receiver.try_recv().is_err());
}

#[test]
fn dropped_receiver_does_not_fail_the_broadcast() {
    let mut listeners: Listeners<u64> = Listeners::default();
    let a = listeners.add();
    let mut b = listeners.add();
    let mut c = listeners.add();
    assert_eq!(listeners.len(), 3);

    drop(a);
    let delivered = listeners.broadcast(&7);
    assert_eq!(delivered, 2);
    assert_eq!(listeners.len(), 2);
    assert_eq!(listeners.listeners(), vec![b.id, c.id]);

    assert_eq!(b.receiver.try_recv().unwrap(), 7);
    assert_eq!(c.receiver.try_recv().unwrap(), 7);
}

#[test]
fn emitter_end_to_end() {
    let mut emitter: EventEmitter<i64> = EventEmitter::default();
    let mut a = emitter.subscribe();
    let mut b = emitter.subscribe();
    assert_ne!(a.id, b.id);
    assert_eq!(emitter.count(), 2);

    emitter.emit(&5);
    assert_eq!(a.receiver.try_recv().unwrap(), 5);
    assert!(a.receiver.try_recv().is_err());
    assert_eq!(b.receiver.try_recv().unwrap(), 5);
    assert!(b.receiver.try_recv().is_err());

    drop(a);
    emitter.emit(&7);
    assert_eq!(b.receiver.try_recv().unwrap(), 7);
    assert!(b.receiver.try_recv().is_err());
    assert_eq!(emitter.count(), 1);
}
