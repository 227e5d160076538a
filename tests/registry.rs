use tokio::sync::mpsc::error::TryRecvError;
use pocket_relay_bot::pub_sub::{PubSub, SESSION_CHANNEL_CAPACITY};

#[test]
fn first_dispatch_creates_one_session() {
    let mut reg: PubSub<String> = PubSub::new();
    assert!(!reg.contains(7));
    let (tx, sub) = reg.subscribe_if_does_not_exist(7, SESSION_CHANNEL_CAPACITY);
    let mut sub = sub.expect("first dispatch creates a session");
    assert_eq!(*sub.get_key(), 7);
    assert!(reg.contains(7));
    tx.try_send("hi".to_string()).unwrap();
    assert_eq!(sub.receiver().try_recv().unwrap(), "hi");
}

#[test]
fn repeated_dispatches_create_exactly_one_session() {
    let mut reg: PubSub<String> = PubSub::default();
    let mut created = 0;
    let mut subs = Vec::new();
    let mut senders = Vec::new();
    for i in 0..5 {
        let (tx, sub) = reg.subscribe_if_does_not_exist(42, SESSION_CHANNEL_CAPACITY);
        if let Some(s) = sub {
            created += 1;
            subs.push(s);
        }
        tx.try_send(format!("m{}", i)).unwrap();
        senders.push(tx);
    }
    assert_eq!(created, 1);
    let sub = &mut subs[0];
    for i in 0..5 {
        assert_eq!(sub.receiver().try_recv().unwrap(), format!("m{}", i));
    }
}

#[test]
fn unsubscribe_removes_the_key() {
    let mut reg: PubSub<String> = PubSub::new();
    let (_tx, sub) = reg.subscribe_if_does_not_exist(3, SESSION_CHANNEL_CAPACITY);
    let sub = sub.unwrap();
    let (_tx2, _) = reg.subscribe_if_does_not_exist(4, SESSION_CHANNEL_CAPACITY);
    reg.unsubscribe(*sub.get_key());
    drop(sub);
    assert!(!reg.contains(3));
    assert!(reg.contains(4));
    reg.unsubscribe(3);
    assert!(!reg.contains(3));
}

#[test]
fn released_key_gets_a_fresh_session() {
    let mut reg: PubSub<String> = PubSub::new();
    let (_tx, sub) = reg.subscribe_if_does_not_exist(9, SESSION_CHANNEL_CAPACITY);
    let sub = sub.unwrap();
    reg.unsubscribe(9);
    drop(sub);
    let (tx, again) = reg.subscribe_if_does_not_exist(9, SESSION_CHANNEL_CAPACITY);
    let mut again = again.expect("a released key is dispatched as on first contact");
    assert_eq!(*again.get_key(), 9);
    tx.try_send("x".to_string()).unwrap();
    assert_eq!(again.receiver().try_recv().unwrap(), "x");
}

#[test]
fn channel_capacity_is_bounded() {
    let mut reg: PubSub<u32> = PubSub::new();
    let (tx, sub) = reg.subscribe_if_does_not_exist(1, 2);
    let _sub = sub.unwrap();
    assert_eq!(tx.max_capacity(), 2);
    tx.try_send(1).unwrap();
    tx.try_send(2).unwrap();
    assert!(tx.try_send(3).is_err());
}

#[test]
fn idle_release_keeps_a_queued_message() {
    let mut reg: PubSub<String> = PubSub::new();
    let (tx, sub) = reg.subscribe_if_does_not_exist(5, SESSION_CHANNEL_CAPACITY);
    let mut sub = sub.unwrap();
    tx.try_send("late".to_string()).unwrap();
    assert_eq!(reg.release_if_idle(&mut sub), Some("late".to_string()));
    assert!(reg.contains(5));
    assert_eq!(reg.release_if_idle(&mut sub), None);
    assert!(!reg.contains(5));
    let (_tx, again) = reg.subscribe_if_does_not_exist(5, SESSION_CHANNEL_CAPACITY);
    assert!(again.is_some());
}

#[test]
fn settle_idle_keeps_session_on_a_polled_message() {
    let mut reg: PubSub<String> = PubSub::new();
    let (_tx, _sub) = reg.subscribe_if_does_not_exist(11, SESSION_CHANNEL_CAPACITY);
    assert_eq!(reg.settle_idle(11, Ok("queued".to_string())), Some("queued".to_string()));
    assert!(reg.contains(11));
}

#[test]
fn settle_idle_releases_when_nothing_was_polled() {
    let mut reg: PubSub<String> = PubSub::new();
    let (_tx, _sub) = reg.subscribe_if_does_not_exist(12, SESSION_CHANNEL_CAPACITY);
    let (_tx2, _sub2) = reg.subscribe_if_does_not_exist(13, SESSION_CHANNEL_CAPACITY);
    assert_eq!(reg.settle_idle(12, Err(TryRecvError::Empty)), None);
    assert!(!reg.contains(12));
    assert!(reg.contains(13));
    assert_eq!(reg.settle_idle(13, Err(TryRecvError::Disconnected)), None);
    assert!(!reg.contains(13));
}

#[test]
fn held_key_ignores_capacity_and_feeds_the_same_session() {
    let mut reg: PubSub<u32> = PubSub::new();
    let (_tx, sub) = reg.subscribe_if_does_not_exist(21, 4);
    let mut sub = sub.unwrap();
    let (tx2, none) = reg.subscribe_if_does_not_exist(21, 0);
    assert!(none.is_none());
    assert_eq!(tx2.max_capacity(), 4);
    tx2.try_send(9).unwrap();
    assert_eq!(sub.receiver().try_recv().unwrap(), 9);
}
