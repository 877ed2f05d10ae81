use sage::errors::ErrorWrap;
use sage::sg_threading::time_handler::{
    failure_report, get_next_timer_id, handle_timer_event, stop_all_timers, TimerEV, TimerFailure,
    TimerIdCounter, TimerLoop, TimerTable,
};
use sage::sg_threading::timer::{TimerID, TimerType};
use sage::time_span::TimeSpan;
use std::cell::RefCell;

#[derive(Debug, PartialEq)]
struct FakeTimer {
    id: TimerID,
    name: String,
}

fn create_ok(
    id: TimerID,
    name: String,
    _delta: TimeSpan,
    _timer_type: TimerType,
    _tx: (),
) -> Result<FakeTimer, ErrorWrap> {
    Ok(FakeTimer { id, name })
}

fn create_err(
    _id: TimerID,
    _name: String,
    _delta: TimeSpan,
    _timer_type: TimerType,
    _tx: (),
) -> Result<FakeTimer, ErrorWrap> {
    Err(ErrorWrap::Generic("no more timers".to_string()))
}

fn ok_action(_t: &FakeTimer) -> Result<(), ErrorWrap> {
    Ok(())
}

fn failing_action(_t: &FakeTimer) -> Result<(), ErrorWrap> {
    Err(ErrorWrap::Generic("settime failed".to_string()))
}

fn add(id: TimerID, name: &str) -> TimerEV<()> {
    TimerEV::AddTimer {
        id,
        name: name.to_string(),
        delta: TimeSpan::from_millis(100),
        timer_type: TimerType::Periodic,
        timer_tx: (),
    }
}

#[test]
fn timer_ids_count_from_zero_and_wrap() {
    let mut counter = TimerIdCounter::new();
    assert_eq!(get_next_timer_id(&mut counter), 0);
    assert_eq!(get_next_timer_id(&mut counter), 1);
}

#[test]
fn add_then_remove_forgets_the_timer() {
    let mut table: TimerTable<FakeTimer> = TimerTable::new();
    let r = handle_timer_event(&mut table, add(4, "a"), &create_ok, &ok_action, &ok_action);
    assert_eq!(r.flow, TimerLoop::Continue);
    assert!(r.failure.is_none());
    assert_eq!(table.get(4), Some(&FakeTimer { id: 4, name: "a".to_string() }));
    let r = handle_timer_event(&mut table, TimerEV::RemoveTimer { id: 4 }, &create_ok, &ok_action, &ok_action);
    assert!(r.failure.is_none());
    assert!(table.get(4).is_none());
    assert_eq!(table.len(), 0);
}

#[test]
fn adding_under_a_used_id_replaces_the_timer() {
    let mut table: TimerTable<FakeTimer> = TimerTable::new();
    handle_timer_event(&mut table, add(1, "first"), &create_ok, &ok_action, &ok_action);
    handle_timer_event(&mut table, add(1, "second"), &create_ok, &ok_action, &ok_action);
    assert_eq!(table.len(), 1);
    assert_eq!(table.get(1).unwrap().name, "second");
}

#[test]
fn failed_add_leaves_the_table() {
    let mut table: TimerTable<FakeTimer> = TimerTable::new();
    let r = handle_timer_event(&mut table, add(1, "x"), &create_err, &ok_action, &ok_action);
    let (failure, e) = r.failure.unwrap();
    assert_eq!(failure, TimerFailure::Add);
    assert_eq!(failure_report(failure, &e), "failed to add timer. no more timers");
    assert_eq!(table.len(), 0);
}

#[test]
fn start_and_stop_of_unknown_timers_do_nothing() {
    let mut table: TimerTable<FakeTimer> = TimerTable::new();
    let r = handle_timer_event(&mut table, TimerEV::<()>::StartTimer { id: 9 }, &create_ok, &failing_action, &failing_action);
    assert!(r.failure.is_none());
    let r = handle_timer_event(&mut table, TimerEV::<()>::StopTimer { id: 9 }, &create_ok, &failing_action, &failing_action);
    assert!(r.failure.is_none());
}

#[test]
fn failed_start_and_stop_are_reported() {
    let mut table: TimerTable<FakeTimer> = TimerTable::new();
    handle_timer_event(&mut table, add(2, "t"), &create_ok, &ok_action, &ok_action);
    let r = handle_timer_event(&mut table, TimerEV::StartTimer { id: 2 }, &create_ok, &failing_action, &ok_action);
    let (failure, e) = r.failure.unwrap();
    assert_eq!(failure, TimerFailure::Start);
    assert_eq!(failure_report(failure, &e), "failed to start timer. settime failed");
    let r = handle_timer_event(&mut table, TimerEV::StopTimer { id: 2 }, &create_ok, &ok_action, &failing_action);
    let (failure, e) = r.failure.unwrap();
    assert_eq!(failure, TimerFailure::Stop);
    assert_eq!(failure_report(failure, &e), "failed to stop timer. settime failed");
    assert_eq!(table.len(), 1);
}

#[test]
fn start_acts_on_the_recorded_timer() {
    let mut table: TimerTable<FakeTimer> = TimerTable::new();
    handle_timer_event(&mut table, add(3, "t"), &create_ok, &ok_action, &ok_action);
    let started = RefCell::new(Vec::new());
    let start = |t: &FakeTimer| -> Result<(), ErrorWrap> {
        started.borrow_mut().push(t.id);
        Ok(())
    };
    handle_timer_event(&mut table, TimerEV::StartTimer { id: 3 }, &create_ok, &start, &ok_action);
    assert_eq!(*started.borrow(), vec![3]);
}

#[test]
fn stop_thread_ends_the_loop() {
    let mut table: TimerTable<FakeTimer> = TimerTable::new();
    let r = handle_timer_event(&mut table, TimerEV::<()>::StopThread, &create_ok, &ok_action, &ok_action);
    assert_eq!(r.flow, TimerLoop::Exit);
}

#[test]
fn stop_all_reports_each_failure() {
    let mut table: TimerTable<FakeTimer> = TimerTable::new();
    for id in 0..3 {
        handle_timer_event(&mut table, add(id, "t"), &create_ok, &ok_action, &ok_action);
    }
    assert!(stop_all_timers(&table, &ok_action).is_empty());
    let mut failed: Vec<TimerID> = stop_all_timers(&table, &failing_action).into_iter().map(|(id, _)| id).collect();
    failed.sort();
    assert_eq!(failed, vec![0, 1, 2]);
    let mut ids = table.ids();
    ids.sort();
    assert_eq!(ids, vec![0, 1, 2]);
}

#[test]
fn io_errors_read_through_in_failure_reports() {
    let e = ErrorWrap::Io(std::io::Error::new(std::io::ErrorKind::Other, "EINVAL"));
    assert_eq!(failure_report(TimerFailure::Start, &e), "failed to start timer. EINVAL");
}
