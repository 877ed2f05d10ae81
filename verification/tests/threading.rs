use sage::errors::ErrorWrap;
use sage::sg_threading::threading::{gather_read_events, route_selection, SelectRoute, StopLatch};
use sage::sg_threading::time_handler::TimerTable;
use sage::threading::{
    next_terminate_step, timer_for, TerminateAction, TerminateObservation, TerminateOutcome,
    ThreadEvent, TimerAction, MAX_EXIT_ATTEMPTS,
};

#[test]
fn stop_asks_for_exit_once() {
    let mut latch = StopLatch::new();
    assert!(latch.needs_terminate());
    latch.mark_stopped();
    assert!(!latch.needs_terminate());
    latch.mark_stopped();
    assert!(!latch.needs_terminate());
}

#[test]
fn selections_route_to_their_channel() {
    assert_eq!(route_selection(0, 0, 1, 2), Some(SelectRoute::Exit));
    assert_eq!(route_selection(1, 0, 1, 2), Some(SelectRoute::HandlerEvent));
    assert_eq!(route_selection(2, 0, 1, 2), Some(SelectRoute::TimerEvent));
    assert_eq!(route_selection(3, 0, 1, 2), None);
}

#[test]
fn gathered_events_keep_poll_order() {
    let results: Vec<Result<Vec<u32>, ErrorWrap>> = vec![
        Ok(vec![1, 2]),
        Err(ErrorWrap::Generic("poll failed".to_string())),
        Ok(vec![]),
        Ok(vec![3]),
    ];
    let (events, errors) = gather_read_events(results);
    assert_eq!(events, vec![1, 2, 3]);
    assert_eq!(errors.len(), 1);
    assert_eq!(errors[0].message(), "poll failed");
}

#[test]
fn missing_timers_are_named_in_the_error() {
    let mut timers: TimerTable<&str> = TimerTable::new();
    timers.insert(1, "one");
    assert_eq!(*timer_for(&timers, 1, TimerAction::Start).unwrap(), "one");
    match timer_for(&timers, 42, TimerAction::Start) {
        Err(ErrorWrap::Generic(m)) => assert_eq!(m, "Cannot start timer with id=42 that does not exist"),
        _ => panic!("expected the missing timer error"),
    }
    match timer_for(&timers, 7, TimerAction::Stop) {
        Err(ErrorWrap::Generic(m)) => assert_eq!(m, "Cannot stop timer with id=7 that does not exist"),
        _ => panic!("expected the missing timer error"),
    }
}

#[test]
fn gathered_errors_keep_poll_order() {
    let results: Vec<Result<Vec<u8>, ErrorWrap>> = vec![
        Err(ErrorWrap::Generic("first".to_string())),
        Ok(vec![1]),
        Err(ErrorWrap::Generic("second".to_string())),
    ];
    let (events, errors) = gather_read_events(results);
    assert_eq!(events, vec![1]);
    let texts: Vec<String> = errors.iter().map(|e| e.message()).collect();
    assert_eq!(texts, vec!["first", "second"]);
}

#[test]
fn only_the_exit_event_ends_processing() {
    assert!(ThreadEvent::<u8, ()>::Exit.ends_processing());
    assert!(!ThreadEvent::<u8, ()>::Handler(1).ends_processing());
    assert!(!ThreadEvent::<u8, ()>::Timer { callback: () }.ends_processing());
}


/// Runs a request for a thread to exit against the given answers: whether
/// the thread runs at each look, and whether each send succeeds. Returns the
/// outcome, the failed sends, the sends made and the failures reported.
fn run_terminate(running: &[bool], sent: &[bool]) -> (TerminateOutcome, u8, usize, Vec<u8>) {
    let (mut looks, mut sends) = (0usize, 0usize);
    let mut reported = Vec::new();
    let mut failed = 0u8;
    let mut last = None;
    loop {
        let step = next_terminate_step(failed, last);
        failed = step.failed_attempts;
        if let Some(n) = step.report_failure {
            reported.push(n);
        }
        last = Some(match step.action {
            TerminateAction::CheckRunning => {
                looks += 1;
                TerminateObservation::Running(running[looks - 1])
            }
            TerminateAction::SendExit => {
                sends += 1;
                TerminateObservation::Sent(sent[sends - 1])
            }
            TerminateAction::Finish(outcome) => return (outcome, failed, sends, reported),
        });
    }
}

#[test]
fn terminate_of_a_stopped_thread_sends_nothing() {
    let (outcome, failed, sends, _) = run_terminate(&[false], &[]);
    assert_eq!(outcome, TerminateOutcome::NotRunning);
    assert_eq!((failed, sends), (0, 0));
}

#[test]
fn terminate_sends_the_exit_event_once() {
    let (outcome, failed, sends, _) = run_terminate(&[true; 8], &[true; 8]);
    assert_eq!(outcome, TerminateOutcome::ExitSent);
    assert_eq!((failed, sends), (0, 1));
}

#[test]
fn terminate_gives_up_after_six_failures() {
    let (outcome, failed, sends, reported) = run_terminate(&[true; 8], &[false; 8]);
    assert_eq!(outcome, TerminateOutcome::GaveUp);
    assert_eq!(failed, MAX_EXIT_ATTEMPTS + 1);
    assert_eq!(sends, 6);
    assert_eq!(reported, vec![1, 2, 3, 4, 5, 6]);
}

#[test]
fn terminate_retries_until_a_send_succeeds() {
    let (outcome, failed, sends, _) = run_terminate(&[true; 8], &[false, false, true]);
    assert_eq!(outcome, TerminateOutcome::ExitSent);
    assert_eq!((failed, sends), (2, 3));
}

#[test]
fn terminate_stops_when_the_thread_ends_midway() {
    let (outcome, failed, sends, _) = run_terminate(&[true, true, false], &[false; 8]);
    assert_eq!(outcome, TerminateOutcome::NotRunning);
    assert_eq!((failed, sends), (2, 2));
}
