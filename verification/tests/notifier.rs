use rotor::notify::create_notifier;
use rotor::{Notify, Token, WakeupError};
use std::sync::mpsc::sync_channel;

#[test]
fn wakeup_reaches_the_queue() {
    let (tx, rx) = sync_channel::<Notify>(4);
    let n = create_notifier(Token(3), &tx);
    n.wakeup().unwrap();
    match rx.try_recv().unwrap() {
        Notify::Fsm(t) => assert_eq!(t, Token(3)),
    }
}

#[test]
fn clone_wakes_the_same_token() {
    let (tx, rx) = sync_channel::<Notify>(4);
    let n = create_notifier(Token(9), &tx);
    let m = n.clone();
    m.wakeup().unwrap();
    match rx.try_recv().unwrap() {
        Notify::Fsm(t) => assert_eq!(t, Token(9)),
    }
}

#[test]
fn full_queue_is_reported() {
    let (tx, _rx) = sync_channel::<Notify>(1);
    let n = create_notifier(Token(0), &tx);
    assert_eq!(n.wakeup(), Ok(()));
    assert_eq!(n.wakeup(), Err(WakeupError::Full));
}

#[test]
fn closed_queue_is_reported() {
    let (tx, rx) = sync_channel::<Notify>(1);
    let n = create_notifier(Token(0), &tx);
    drop(rx);
    assert_eq!(n.wakeup(), Err(WakeupError::Closed));
}
