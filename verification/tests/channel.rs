use task_bridge::channel::Receiver;
use task_bridge::completion::{Completion, CompletionState};
use task_bridge::executor::execute;
use task_bridge::task::{FutureTask, Task, TaskError};

#[test]
fn values_are_received_in_send_order() {
    let mut r = Receiver::new();
    r.accept("first".to_string());
    r.accept("second".to_string());
    assert_eq!(r.receive(), Ok("first".to_string()));
    assert_eq!(r.receive(), Ok("second".to_string()));
}

#[test]
fn receive_after_disconnect_reports_disconnection() {
    let mut r = Receiver::new();
    r.disconnect();
    assert_eq!(r.receive(), Err(TaskError::Disconnected));
}

#[test]
fn pending_value_outlives_disconnect() {
    let mut r = Receiver::new();
    r.accept("kept".to_string());
    r.disconnect();
    assert_eq!(r.receive(), Ok("kept".to_string()));
    assert_eq!(r.receive(), Err(TaskError::Disconnected));
}

#[test]
fn can_receive_tracks_queue_and_sender() {
    let mut r = Receiver::new();
    assert!(!r.can_receive());
    r.accept("x".to_string());
    assert!(r.can_receive());
    let _ = r.receive();
    assert!(!r.can_receive());
    r.disconnect();
    assert!(r.can_receive());
}

#[test]
fn future_task_delivers_received_string() {
    let mut recv = Receiver::new();
    recv.accept("payload".to_string());
    let mut task = FutureTask { recv };
    let performed = task.perform();
    let completed = task.complete(performed);
    assert_eq!(completed, Ok("payload".to_string()));
}

#[test]
fn future_task_propagates_disconnection_through_executor() {
    let mut recv = Receiver::new();
    recv.disconnect();
    let task = FutureTask { recv };
    let mut notify: Completion<String> = Completion::new();
    execute(task, &mut notify);
    assert!(matches!(
        notify.peek(),
        CompletionState::Fulfilled(Err(TaskError::Disconnected))
    ));
}
