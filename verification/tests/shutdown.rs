use sage::errors::ErrorWrap;
use sage::sg_threading::signal_handler::{
    check_woken_signal, next_shutdown_action, shutdown_failure_message, ShutdownAction,
    ShutdownStep,
};

fn fail(text: &str) -> ErrorWrap {
    ErrorWrap::Generic(text.to_string())
}

/// Runs the shutdown steps with the given outcome for each step, and
/// returns the actions taken.
fn drive(outcomes: [Result<(), ErrorWrap>; 4]) -> Vec<String> {
    let mut outcomes: Vec<Option<Result<(), ErrorWrap>>> = outcomes.into_iter().map(Some).collect();
    let mut taken = Vec::new();
    let mut last: Option<(ShutdownStep, Result<(), ErrorWrap>)> = None;
    loop {
        let (step, index) = match next_shutdown_action(last) {
            ShutdownAction::CreateTimer => (ShutdownStep::CreateTimer, 0),
            ShutdownAction::StartTimer => (ShutdownStep::StartTimer, 1),
            ShutdownAction::RunCallback => (ShutdownStep::Callback, 2),
            ShutdownAction::StopTimer => (ShutdownStep::StopTimer, 3),
            ShutdownAction::Finish => {
                taken.push("finish".to_string());
                return taken;
            }
            ShutdownAction::Abort(step, e) => {
                taken.push(shutdown_failure_message(step, &e));
                return taken;
            }
        };
        taken.push(format!("{:?}", step));
        last = Some((step, outcomes[index].take().unwrap()));
    }
}

#[test]
fn shutdown_runs_every_step_in_order() {
    assert_eq!(
        drive([Ok(()), Ok(()), Ok(()), Ok(())]),
        vec!["CreateTimer", "StartTimer", "Callback", "StopTimer", "finish"]
    );
}

#[test]
fn failed_create_ends_the_shutdown() {
    assert_eq!(
        drive([Err(fail("no timer")), Ok(()), Ok(()), Ok(())]),
        vec!["CreateTimer", "failed to create shutdown timer. no timer. aborting"]
    );
}

#[test]
fn failed_callback_skips_stopping_the_timer() {
    assert_eq!(
        drive([Ok(()), Ok(()), Err(fail("busy")), Ok(())]),
        vec!["CreateTimer", "StartTimer", "Callback", "shutdown trigger failed. busy. aborting"]
    );
}

#[test]
fn failed_start_and_stop_are_named() {
    assert_eq!(
        drive([Ok(()), Err(fail("a")), Ok(()), Ok(())]),
        vec!["CreateTimer", "StartTimer", "failed to start shutdown timer. a. aborting"]
    );
    assert_eq!(
        drive([Ok(()), Ok(()), Ok(()), Err(fail("b"))]),
        vec!["CreateTimer", "StartTimer", "Callback", "StopTimer", "failed to stop shutdown timer. b. aborting"]
    );
}

#[test]
fn io_errors_read_through_in_shutdown_messages() {
    let e = ErrorWrap::Io(std::io::Error::new(std::io::ErrorKind::Other, "EINVAL"));
    assert_eq!(
        shutdown_failure_message(ShutdownStep::StopTimer, &e),
        "failed to stop shutdown timer. EINVAL. aborting"
    );
}

#[test]
fn woken_signal_checks() {
    assert!(check_woken_signal(2).is_ok());
    assert!(check_woken_signal(3).is_ok());
    assert!(check_woken_signal(15).is_ok());
    assert_eq!(check_woken_signal(0).unwrap_err(), "Unexpected signal: 0");
    assert_eq!(check_woken_signal(10).unwrap_err(), "Unexpected signal: 10");
    assert_eq!(check_woken_signal(-7).unwrap_err(), "Unexpected signal: -7");
    assert_eq!(check_woken_signal(i32::MIN).unwrap_err(), format!("Unexpected signal: {}", i32::MIN));
}

#[test]
fn unexpected_flag_text() {
    assert_eq!(sage::signal_handler::unexpected_flag_message(10), "Unexpected signal: 10");
}
