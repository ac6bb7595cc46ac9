use task_bridge::bridge::{Bridge, SendError};
use task_bridge::completion::CompletionState;
use task_bridge::task::TaskError;

#[test]
fn single_delivery_fires_once_with_the_pushed_value() {
    let mut b = Bridge::new();
    assert!(matches!(b.notification(), CompletionState::Pending));
    assert!(b.push("hello".to_string()).is_ok());
    assert!(b.step());
    match b.notification() {
        CompletionState::Fulfilled(Ok(s)) => assert_eq!(s.as_str(), "hello"),
        _ => panic!("notification did not fire with the pushed value"),
    }
    // the session is closed: a further step never fires the notification again
    assert!(!b.step());
    assert!(matches!(b.notification(), CompletionState::Fulfilled(Ok(_))));
}

#[test]
fn disconnection_fires_once_with_the_fixed_error() {
    let mut b = Bridge::new();
    b.drop_sender();
    // the worker is released instead of waiting forever
    assert!(b.step());
    match b.notification() {
        CompletionState::Fulfilled(Err(e)) => {
            assert_eq!(e.message(), "unable to receive data");
        },
        _ => panic!("notification did not fire with the disconnection error"),
    }
    assert!(!b.step());
}

#[test]
fn push_after_completion_raises_synchronous_error() {
    let mut b = Bridge::new();
    assert!(b.push("first".to_string()).is_ok());
    assert!(b.step());
    let r = b.push("late".to_string());
    match r {
        Err(e) => {
            assert_eq!(e, SendError::NoReceiver);
            assert_eq!(e.message(), "unable to send data");
        },
        Ok(()) => panic!("push after completion must not silently succeed"),
    }
}

#[test]
fn worker_waits_while_nothing_was_pushed() {
    let mut b = Bridge::new();
    assert!(!b.step());
    assert!(matches!(b.notification(), CompletionState::Pending));
}

#[test]
fn task_error_carries_fixed_message() {
    assert_eq!(TaskError::Disconnected.message(), "unable to receive data");
}
