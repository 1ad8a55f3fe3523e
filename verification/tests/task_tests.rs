use quick_launch::task::{settle, Polled, Task, TaskPhase};
use std::sync::mpsc::channel;

#[test]
fn a_new_task_is_waiting() {
    let (_tx, rx) = channel::<u32>();
    let task = Task::from_receiver(rx);
    assert_eq!(task.current_phase(), TaskPhase::Waiting);
    assert!(!task.is_exhausted());
}

#[test]
fn polling_before_the_result_gives_none_and_keeps_waiting() {
    let (tx, rx) = channel::<u32>();
    let mut task = Task::from_receiver(rx);
    assert_eq!(task.try_take(), None);
    assert_eq!(task.try_take(), None);
    assert_eq!(task.current_phase(), TaskPhase::Waiting);
    drop(tx);
}

#[test]
fn the_result_is_delivered_once() {
    let (tx, rx) = channel::<u32>();
    let mut task = Task::from_receiver(rx);
    assert_eq!(task.try_take(), None);
    tx.send(42).unwrap();
    assert_eq!(task.try_take(), Some(42));
    assert_eq!(task.current_phase(), TaskPhase::Delivered);
    assert!(task.is_exhausted());
    assert_eq!(task.try_take(), None);
    assert_eq!(task.try_take(), None);
    assert_eq!(task.current_phase(), TaskPhase::Delivered);
}

#[test]
fn a_result_sent_before_the_sender_left_is_still_delivered() {
    let (tx, rx) = channel::<String>();
    let mut task = Task::from_receiver(rx);
    tx.send("done".to_string()).unwrap();
    drop(tx);
    assert_eq!(task.try_take(), Some("done".to_string()));
    assert_eq!(task.try_take(), None);
}

#[test]
fn a_second_value_is_never_delivered() {
    let (tx, rx) = channel::<u32>();
    let mut task = Task::from_receiver(rx);
    tx.send(1).unwrap();
    tx.send(2).unwrap();
    assert_eq!(task.try_take(), Some(1));
    assert_eq!(task.try_take(), None);
    assert_eq!(task.try_take(), None);
}

#[test]
fn work_that_ends_without_a_result_is_lost_in_silence() {
    let (tx, rx) = channel::<u32>();
    let mut task = Task::from_receiver(rx);
    drop(tx);
    assert_eq!(task.try_take(), None);
    assert_eq!(task.current_phase(), TaskPhase::Lost);
    assert!(task.is_exhausted());
    assert_eq!(task.try_take(), None);
    assert_eq!(task.current_phase(), TaskPhase::Lost);
}

#[test]
fn dropping_the_task_does_not_trouble_the_sender() {
    let (tx, rx) = channel::<u32>();
    let task = Task::from_receiver(rx);
    drop(task);
    assert!(tx.send(7).is_err());
}

#[test]
fn settle_moves_a_waiting_task() {
    assert_eq!(
        settle(TaskPhase::Waiting, Polled::Ready(5u8)),
        (TaskPhase::Delivered, Some(5u8))
    );
    assert_eq!(settle(TaskPhase::Waiting, Polled::<u8>::Pending), (TaskPhase::Waiting, None));
    assert_eq!(settle(TaskPhase::Waiting, Polled::<u8>::Closed), (TaskPhase::Lost, None));
}

#[test]
fn settle_leaves_a_delivered_task_alone() {
    assert_eq!(settle(TaskPhase::Delivered, Polled::Ready(5u8)), (TaskPhase::Delivered, None));
    assert_eq!(
        settle(TaskPhase::Delivered, Polled::<u8>::Pending),
        (TaskPhase::Delivered, None)
    );
    assert_eq!(settle(TaskPhase::Delivered, Polled::<u8>::Closed), (TaskPhase::Delivered, None));
}

#[test]
fn settle_leaves_a_lost_task_alone() {
    assert_eq!(settle(TaskPhase::Lost, Polled::Ready(5u8)), (TaskPhase::Lost, None));
    assert_eq!(settle(TaskPhase::Lost, Polled::<u8>::Pending), (TaskPhase::Lost, None));
    assert_eq!(settle(TaskPhase::Lost, Polled::<u8>::Closed), (TaskPhase::Lost, None));
}

#[test]
fn any_run_of_polls_delivers_at_most_once() {
    let runs: Vec<Vec<Polled<u8>>> = vec![
        vec![],
        vec![Polled::Pending, Polled::Pending],
        vec![Polled::Pending, Polled::Ready(1), Polled::Ready(2), Polled::Pending],
        vec![Polled::Ready(1), Polled::Closed, Polled::Ready(3)],
        vec![Polled::Closed, Polled::Ready(1), Polled::Ready(2)],
    ];
    let expected: Vec<Vec<Option<u8>>> = vec![
        vec![],
        vec![None, None],
        vec![None, Some(1), None, None],
        vec![Some(1), None, None],
        vec![None, None, None],
    ];
    for (run, want) in runs.into_iter().zip(expected) {
        let mut phase = TaskPhase::Waiting;
        let mut got = Vec::new();
        for polled in run {
            let (next, taken) = settle(phase, polled);
            phase = next;
            got.push(taken);
        }
        assert_eq!(got, want);
        assert!(got.iter().filter(|t| t.is_some()).count() <= 1);
    }
}
