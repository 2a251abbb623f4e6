use poll_buffer::{LongPollBuffer, Receipt, WorkerAction, WorkflowTaskPoller};

#[test]
fn only_polls_once_with_1_poller() {
    let mut pb: LongPollBuffer<Result<u32, String>> = LongPollBuffer::new(1, 1);
    let mut invocations = 0;
    let mut last_val = false;
    // Ten consumer polls, each interrupted before anything arrives.
    for _ in 0..10 {
        assert!(pb.request_poll());
        if pb.worker_step(0) == WorkerAction::StartPoll {
            invocations += 1;
        }
        match pb.receive() {
            Receipt::Wait => last_val = true,
            _ => panic!("nothing should have arrived yet"),
        }
    }
    assert!(last_val);
    assert_eq!(invocations, 1);
    // The single poll settles after its sleep; one more consumer poll takes it.
    assert!(pb.request_poll());
    assert!(pb.complete_poll(0, Ok(100)));
    assert_eq!(pb.worker_step(0), WorkerAction::Pushed);
    match pb.receive() {
        Receipt::Item(Ok(v)) => assert_eq!(v, 100),
        _ => panic!("expected the buffered outcome"),
    }
    // The worker goes again on the outstanding demand; nobody takes the result.
    if pb.worker_step(0) == WorkerAction::StartPoll {
        invocations += 1;
    }
    assert_eq!(invocations, 2);
    pb.notify_shutdown();
    pb.abandon_poll(0);
    assert_eq!(pb.worker_step(0), WorkerAction::Exit);
    assert!(pb.is_closed());
    assert!(matches!(pb.receive(), Receipt::Closed));
}

#[test]
fn single_worker_never_polls_twice_at_once() {
    let mut pb: LongPollBuffer<u32> = LongPollBuffer::new(1, 4);
    for _ in 0..5 {
        assert!(pb.request_poll());
    }
    assert_eq!(pb.worker_step(0), WorkerAction::StartPoll);
    for _ in 0..5 {
        assert_eq!(pb.worker_step(0), WorkerAction::Wait);
    }
    assert!(pb.complete_poll(0, 1));
    assert_eq!(pb.worker_step(0), WorkerAction::Pushed);
    assert_eq!(pb.worker_step(0), WorkerAction::StartPoll);
}

#[test]
fn polls_start_no_more_often_than_requested() {
    let mut pb: LongPollBuffer<u32> = LongPollBuffer::new(3, 4);
    assert!(pb.request_poll());
    assert!(pb.request_poll());
    let mut started = 0;
    for w in 0..3 {
        if pb.worker_step(w) == WorkerAction::StartPoll {
            started += 1;
        }
    }
    assert_eq!(started, 2);
    assert_eq!(pb.worker_step(2), WorkerAction::Wait);
}

#[test]
fn no_poll_without_a_request() {
    let mut pb: LongPollBuffer<u32> = LongPollBuffer::new(4, 2);
    assert_eq!(pb.worker_count(), 4);
    for _ in 0..3 {
        for w in 0..4 {
            assert_eq!(pb.worker_step(w), WorkerAction::Wait);
        }
    }
    assert!(matches!(pb.receive(), Receipt::Wait));
}

#[test]
fn full_queue_blocks_the_producing_worker() {
    let mut pb: LongPollBuffer<u32> = LongPollBuffer::new(2, 1);
    assert!(pb.request_poll());
    assert!(pb.request_poll());
    assert_eq!(pb.worker_step(0), WorkerAction::StartPoll);
    assert_eq!(pb.worker_step(1), WorkerAction::StartPoll);
    assert!(pb.complete_poll(0, 10));
    assert!(pb.complete_poll(1, 20));
    assert_eq!(pb.worker_step(0), WorkerAction::Pushed);
    assert_eq!(pb.worker_step(1), WorkerAction::Wait);
    assert!(pb.is_ready());
    assert!(matches!(pb.receive(), Receipt::Item(10)));
    assert_eq!(pb.worker_step(1), WorkerAction::Pushed);
    assert!(matches!(pb.receive(), Receipt::Item(20)));
}

#[test]
fn outcomes_come_out_in_push_order() {
    let mut pb: LongPollBuffer<u32> = LongPollBuffer::new(2, 2);
    assert!(pb.request_poll());
    assert!(pb.request_poll());
    assert_eq!(pb.worker_step(0), WorkerAction::StartPoll);
    assert_eq!(pb.worker_step(1), WorkerAction::StartPoll);
    assert!(pb.complete_poll(1, 2));
    assert_eq!(pb.worker_step(1), WorkerAction::Pushed);
    assert!(pb.complete_poll(0, 1));
    assert_eq!(pb.worker_step(0), WorkerAction::Pushed);
    assert!(matches!(pb.receive(), Receipt::Item(2)));
    assert!(matches!(pb.receive(), Receipt::Item(1)));
}

#[test]
fn failed_poll_is_delivered_as_an_error() {
    let mut pb: LongPollBuffer<Result<u32, String>> = LongPollBuffer::new(1, 1);
    assert!(pb.request_poll());
    assert_eq!(pb.worker_step(0), WorkerAction::StartPoll);
    assert!(pb.complete_poll(0, Err("unavailable".to_string())));
    assert_eq!(pb.worker_step(0), WorkerAction::Pushed);
    match pb.receive() {
        Receipt::Item(Err(e)) => assert_eq!(e, "unavailable"),
        _ => panic!("expected the error outcome"),
    }
}

#[test]
fn shutdown_delivers_buffered_then_closes() {
    let mut pb: LongPollBuffer<u32> = LongPollBuffer::new(2, 2);
    assert!(pb.request_poll());
    assert!(pb.request_poll());
    assert_eq!(pb.worker_step(0), WorkerAction::StartPoll);
    assert_eq!(pb.worker_step(1), WorkerAction::StartPoll);
    assert!(pb.complete_poll(0, 5));
    assert_eq!(pb.worker_step(0), WorkerAction::Pushed);
    pb.notify_shutdown();
    pb.notify_shutdown();
    assert!(pb.is_shutting_down());
    // The poll that settles after shutdown is dropped.
    assert!(!pb.complete_poll(1, 6));
    assert_eq!(pb.worker_step(0), WorkerAction::Exit);
    assert!(!pb.is_closed());
    assert_eq!(pb.worker_step(1), WorkerAction::Exit);
    assert!(pb.is_closed());
    assert!(matches!(pb.receive(), Receipt::Item(5)));
    assert!(matches!(pb.receive(), Receipt::Closed));
    assert!(matches!(pb.receive(), Receipt::Closed));
}

#[test]
fn shutdown_with_demand_outstanding_starts_no_poll() {
    let mut pb: LongPollBuffer<u32> = LongPollBuffer::new(1, 1);
    assert!(pb.request_poll());
    pb.notify_shutdown();
    assert_eq!(pb.worker_step(0), WorkerAction::Exit);
    assert_eq!(pb.worker_step(0), WorkerAction::Exit);
    assert!(matches!(pb.receive(), Receipt::Closed));
}

#[test]
fn abandon_needs_shutdown() {
    let mut pb: LongPollBuffer<u32> = LongPollBuffer::new(1, 1);
    assert!(pb.request_poll());
    assert_eq!(pb.worker_step(0), WorkerAction::StartPoll);
    pb.abandon_poll(0);
    assert!(pb.complete_poll(0, 3));
}

#[test]
fn no_workers_means_closed_at_once() {
    let mut pb: LongPollBuffer<u32> = LongPollBuffer::new(0, 1);
    assert!(pb.is_closed());
    assert!(pb.request_poll());
    assert!(matches!(pb.receive(), Receipt::Closed));
}

fn buffer_with_item(item: u32) -> LongPollBuffer<u32> {
    let mut pb: LongPollBuffer<u32> = LongPollBuffer::new(1, 1);
    assert!(pb.request_poll());
    assert_eq!(pb.worker_step(0), WorkerAction::StartPoll);
    assert!(pb.complete_poll(0, item));
    assert_eq!(pb.worker_step(0), WorkerAction::Pushed);
    pb
}

#[test]
fn sticky_result_first_wins_and_normal_keeps_its_own() {
    let normal: LongPollBuffer<u32> = LongPollBuffer::new(1, 1);
    let sticky = buffer_with_item(7);
    let mut poller = WorkflowTaskPoller::new(normal, Some(sticky));
    assert!(poller.request_poll());
    assert!(matches!(poller.receive(false), Receipt::Item(7)));
    // The normal child's demand is still there: its worker polls for it.
    assert_eq!(poller.normal_poller.worker_step(0), WorkerAction::StartPoll);
    assert!(poller.normal_poller.complete_poll(0, 9));
    assert_eq!(poller.normal_poller.worker_step(0), WorkerAction::Pushed);
    assert!(matches!(poller.normal_poller.receive(), Receipt::Item(9)));
}

#[test]
fn race_leans_as_told_when_both_are_ready() {
    let mut poller = WorkflowTaskPoller::new(buffer_with_item(1), Some(buffer_with_item(2)));
    assert!(matches!(poller.receive(false), Receipt::Item(1)));
    let mut poller = WorkflowTaskPoller::new(buffer_with_item(1), Some(buffer_with_item(2)));
    assert!(matches!(poller.receive(true), Receipt::Item(2)));
    assert!(matches!(poller.receive(true), Receipt::Item(1)));
}

#[test]
fn without_sticky_the_normal_child_answers() {
    let mut poller = WorkflowTaskPoller::new(buffer_with_item(4), None);
    assert!(matches!(poller.receive(true), Receipt::Item(4)));
    assert!(matches!(poller.receive(true), Receipt::Wait));
    poller.notify_shutdown();
    assert_eq!(poller.normal_poller.worker_step(0), WorkerAction::Exit);
    assert!(poller.is_closed());
    assert!(matches!(poller.receive(false), Receipt::Closed));
}

#[test]
fn race_shutdown_reaches_both_children() {
    let mut poller = WorkflowTaskPoller::new(
        LongPollBuffer::<u32>::new(1, 1),
        Some(LongPollBuffer::<u32>::new(1, 1)),
    );
    poller.notify_shutdown();
    assert!(poller.normal_poller.is_shutting_down());
    assert!(!poller.is_closed());
    assert_eq!(poller.normal_poller.worker_step(0), WorkerAction::Exit);
    assert!(!poller.is_closed());
    if let Some(s) = poller.sticky_poller.as_mut() {
        assert!(s.is_shutting_down());
        assert_eq!(s.worker_step(0), WorkerAction::Exit);
    }
    assert!(poller.is_closed());
}

#[test]
fn zero_capacity_hands_the_outcome_over() {
    let mut pb: LongPollBuffer<u32> = LongPollBuffer::new(1, 0);
    assert!(pb.request_poll());
    assert_eq!(pb.worker_step(0), WorkerAction::StartPoll);
    assert!(pb.complete_poll(0, 5));
    // No room at all: the worker waits for a consumer.
    assert_eq!(pb.worker_step(0), WorkerAction::Wait);
    assert!(pb.is_ready());
    assert!(matches!(pb.receive(), Receipt::Item(5)));
    assert_eq!(pb.worker_step(0), WorkerAction::Wait);
    assert!(matches!(pb.receive(), Receipt::Wait));
}

#[test]
fn zero_capacity_holder_exits_on_shutdown() {
    let mut pb: LongPollBuffer<u32> = LongPollBuffer::new(1, 0);
    assert!(pb.request_poll());
    assert_eq!(pb.worker_step(0), WorkerAction::StartPoll);
    assert!(pb.complete_poll(0, 5));
    pb.notify_shutdown();
    assert_eq!(pb.worker_step(0), WorkerAction::Exit);
    assert!(matches!(pb.receive(), Receipt::Closed));
}

#[test]
fn shutdown_frees_a_worker_blocked_on_a_full_queue() {
    let mut pb: LongPollBuffer<u32> = LongPollBuffer::new(2, 1);
    assert!(pb.request_poll());
    assert!(pb.request_poll());
    assert_eq!(pb.worker_step(0), WorkerAction::StartPoll);
    assert_eq!(pb.worker_step(1), WorkerAction::StartPoll);
    assert!(pb.complete_poll(0, 10));
    assert!(pb.complete_poll(1, 20));
    assert_eq!(pb.worker_step(0), WorkerAction::Pushed);
    assert_eq!(pb.worker_step(1), WorkerAction::Wait);
    pb.notify_shutdown();
    assert_eq!(pb.worker_step(1), WorkerAction::Exit);
    assert_eq!(pb.worker_step(0), WorkerAction::Exit);
    assert!(pb.is_closed());
    assert!(matches!(pb.receive(), Receipt::Item(10)));
    assert!(matches!(pb.receive(), Receipt::Closed));
}

#[test]
fn held_outcome_is_handed_over_before_it_is_pushed() {
    let mut pb: LongPollBuffer<u32> = LongPollBuffer::new(2, 2);
    assert!(pb.request_poll());
    assert!(pb.request_poll());
    assert_eq!(pb.worker_step(0), WorkerAction::StartPoll);
    assert_eq!(pb.worker_step(1), WorkerAction::StartPoll);
    assert!(pb.complete_poll(1, 8));
    assert!(pb.complete_poll(0, 7));
    assert!(matches!(pb.receive(), Receipt::Item(7)));
    assert!(matches!(pb.receive(), Receipt::Item(8)));
    assert_eq!(pb.worker_step(0), WorkerAction::Wait);
    assert_eq!(pb.worker_step(1), WorkerAction::Wait);
}

#[test]
fn no_worker_reports_closed_before_shutdown() {
    let mut pb: LongPollBuffer<u32> = LongPollBuffer::new(1, 1);
    for _ in 0..3 {
        assert_eq!(pb.worker_step(0), WorkerAction::Wait);
        assert!(matches!(pb.receive(), Receipt::Wait));
    }
    assert!(!pb.is_closed());
}
