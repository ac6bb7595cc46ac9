use task_bridge::buffer::WritableBuffer;
use task_bridge::completion::{Completion, CompletionState};
use task_bridge::executor::execute;

#[test]
fn buffer_starts_empty() {
    let b = WritableBuffer::new();
    assert_eq!(b.size(), 0);
    assert!(b.contents().is_empty());
}

#[test]
fn writes_append_in_call_order() {
    let mut b = WritableBuffer::new();
    b.write(&vec![1u8, 2u8]);
    b.write(&vec![]);
    b.write(&vec![3u8, 4u8, 5u8]);
    assert_eq!(b.size(), 5);
    assert_eq!(b.contents(), &vec![1u8, 2u8, 3u8, 4u8, 5u8]);
}

#[test]
fn size_is_sum_of_chunk_lengths() {
    let mut b = WritableBuffer::new();
    let chunks: Vec<Vec<u8>> = vec![vec![9u8], vec![8u8, 7u8], vec![], vec![6u8, 5u8, 4u8]];
    let mut expected: usize = 0;
    for chunk in &chunks {
        b.write(chunk);
        expected += chunk.len();
    }
    assert_eq!(b.size(), expected);
}

#[test]
fn empty_write_keeps_size_unchanged() {
    let mut b = WritableBuffer::new();
    b.write(&vec![10u8, 20u8, 30u8]);
    let before = b.size();
    b.write(&vec![]);
    assert_eq!(b.size(), before);
    assert_eq!(b.contents(), &vec![10u8, 20u8, 30u8]);
}

#[test]
fn write_acknowledgment_fires_once_with_success() {
    let mut b = WritableBuffer::new();
    let task = b.write(&vec![42u8]);
    let mut notify: Completion<()> = Completion::new();
    assert!(matches!(notify.peek(), CompletionState::Pending));
    execute(task, &mut notify);
    assert!(matches!(notify.peek(), CompletionState::Fulfilled(Ok(()))));
}

#[test]
fn empty_chunk_acknowledgment_also_succeeds() {
    let mut b = WritableBuffer::new();
    let task = b.write(&vec![]);
    let mut notify: Completion<()> = Completion::new();
    execute(task, &mut notify);
    assert!(matches!(notify.peek(), CompletionState::Fulfilled(Ok(()))));
}
