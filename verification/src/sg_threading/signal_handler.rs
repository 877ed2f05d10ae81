//! Which signals end the runtime.

use crate::errors::ErrorWrap;
use crate::text::{push_signed_decimal, signed_decimal};
use vstd::prelude::*;
use vstd::string::*;

verus! {

/// The numbers of `SIGINT`, `SIGTERM` and `SIGQUIT` on Linux.
pub open spec fn spec_sigint() -> i32 {
    2
}

pub open spec fn spec_sigterm() -> i32 {
    15
}

pub open spec fn spec_sigquit() -> i32 {
    3
}

/// Whether `signal` is one of the signals that end the runtime.
pub open spec fn spec_is_exit_signal(signal: int) -> bool {
    signal == spec_sigint() || signal == spec_sigterm() || signal == spec_sigquit()
}

/// `libc::SIGINT`, `libc::SIGTERM` and `libc::SIGQUIT`, which the `libc`
/// crate defines as 2, 15 and 3 on Linux.
#[verifier::external_body]
fn libc_exit_signals() -> (signals: (i32, i32, i32))
    ensures
        signals == (spec_sigint(), spec_sigterm(), spec_sigquit()),
{
    (libc::SIGINT, libc::SIGTERM, libc::SIGQUIT)
}

/// The signals that end the runtime, in the order their handlers are
/// installed: interrupt, terminate, quit.
pub fn exit_signals() -> (signals: Vec<i32>)
    ensures
        signals@ == seq![spec_sigint(), spec_sigterm(), spec_sigquit()],
{
    let (interrupt, term, quit) = libc_exit_signals();
    let mut signals = Vec::new();
    signals.push(interrupt);
    signals.push(term);
    signals.push(quit);
    assert(signals@ =~= seq![spec_sigint(), spec_sigterm(), spec_sigquit()]);
    signals
}

/// Whether `signal` is one of the signals that end the runtime; any other
/// signal that wakes the exit wait is unexpected.
pub fn is_exit_signal(signal: i32) -> (exits: bool)
    ensures
        exits == spec_is_exit_signal(signal as int),
{
    let (interrupt, term, quit) = libc_exit_signals();
    signal == interrupt || signal == term || signal == quit
}

/// `Unexpected signal: <signal>`.
pub open spec fn unexpected_signal_text(signal: int) -> Seq<char> {
    "Unexpected signal: "@ + signed_decimal(signal)
}

/// What the exit wait does once it wakes with `signal` recorded: go on to the
/// shutdown for an exit signal; for any other value (a signal it did not ask
/// for, or none at all after a spurious wakeup) abort, with the returned text.
pub fn check_woken_signal(signal: i32) -> (checked: Result<(), String>)
    ensures
        checked is Ok <==> spec_is_exit_signal(signal as int),
        checked matches Err(text) ==> text@ == unexpected_signal_text(signal as int),
{
    if is_exit_signal(signal) {
        Ok(())
    } else {
        let mut text = String::from_str("Unexpected signal: ");
        push_signed_decimal(&mut text, signal);
        proof {
            reveal_strlit("Unexpected signal: ");
        }
        assert(text@ =~= unexpected_signal_text(signal as int));
        Err(text)
    }
}

/// The steps of a shutdown, in the order they run.
#[derive(PartialEq, Eq, Structural, Clone, Copy, Debug)]
pub enum ShutdownStep {
    /// Creating the timer that guards the shutdown's deadline.
    CreateTimer,
    /// Starting that timer.
    StartTimer,
    /// Running the shutdown callback.
    Callback,
    /// Stopping the timer once the callback is done.
    StopTimer,
}

/// The words around the error of a failed shutdown step.
pub open spec fn spec_shutdown_prefix(step: ShutdownStep) -> Seq<char> {
    match step {
        ShutdownStep::CreateTimer => "failed to create shutdown timer. "@,
        ShutdownStep::StartTimer => "failed to start shutdown timer. "@,
        ShutdownStep::Callback => "shutdown trigger failed. "@,
        ShutdownStep::StopTimer => "failed to stop shutdown timer. "@,
    }
}

/// What a shutdown that failed at `step` with a generic error of text
/// `text` says before it aborts.
pub open spec fn shutdown_failure_text(step: ShutdownStep, text: Seq<char>) -> Seq<char> {
    spec_shutdown_prefix(step) + text + ". aborting"@
}

/// What a shutdown that failed at `step` with `error` says before it
/// aborts: the step, then the error's text (the I/O error's display text for
/// an I/O error).
pub fn shutdown_failure_message(step: ShutdownStep, error: &ErrorWrap) -> (text: String)
    ensures
        error matches ErrorWrap::Generic(g) ==> text@ == shutdown_failure_text(step, g@),
        error matches ErrorWrap::Io(e) ==> exists|m: String| #[trigger]
            to_string_from_display_ensures::<std::io::Error>(&e, m) && text@
                == shutdown_failure_text(step, m@),
{
    let mut text = match step {
        ShutdownStep::CreateTimer => String::from_str("failed to create shutdown timer. "),
        ShutdownStep::StartTimer => String::from_str("failed to start shutdown timer. "),
        ShutdownStep::Callback => String::from_str("shutdown trigger failed. "),
        ShutdownStep::StopTimer => String::from_str("failed to stop shutdown timer. "),
    };
    let message = error.message();
    text.append(message.as_str());
    text.append(". aborting");
    proof {
        reveal_strlit(". aborting");
    }
    assert(error matches ErrorWrap::Generic(g) ==> text@ =~= shutdown_failure_text(step, g@));
    assert(error matches ErrorWrap::Io(e) ==> to_string_from_display_ensures::<std::io::Error>(
        &e,
        message,
    ) && text@ =~= shutdown_failure_text(step, message@));
    text
}

/// What a shutdown does next.
pub enum ShutdownAction {
    /// Create the timer that guards the shutdown's deadline.
    CreateTimer,
    /// Start that timer.
    StartTimer,
    /// Run the shutdown callback.
    RunCallback,
    /// Stop the timer.
    StopTimer,
    /// The shutdown is complete.
    Finish,
    /// Abort: this step failed with this error (report it with
    /// `shutdown_failure_message`).
    Abort(ShutdownStep, ErrorWrap),
}

/// The step that follows a successful `step`.
pub open spec fn action_after_success(step: ShutdownStep) -> ShutdownAction {
    match step {
        ShutdownStep::CreateTimer => ShutdownAction::StartTimer,
        ShutdownStep::StartTimer => ShutdownAction::RunCallback,
        ShutdownStep::Callback => ShutdownAction::StopTimer,
        ShutdownStep::StopTimer => ShutdownAction::Finish,
    }
}

/// What a shutdown under a deadline does after `last`, the step it took last
/// and how it ended (`None` before the first step): create the deadline
/// timer, start it, run the callback, stop the timer, and finish; the first
/// step that fails makes the shutdown abort with that step's error. So the
/// callback runs only once the timer is started, and the timer is stopped
/// only once the callback has succeeded.
pub fn next_shutdown_action(last: Option<(ShutdownStep, Result<(), ErrorWrap>)>) -> (action:
    ShutdownAction)
    ensures
        last is None ==> action is CreateTimer,
        last matches Some((step, Ok(_))) ==> action == action_after_success(step),
        last matches Some((step, Err(e))) ==> action == ShutdownAction::Abort(step, e),
{
    match last {
        None => ShutdownAction::CreateTimer,
        Some((step, outcome)) => match outcome {
            Err(e) => ShutdownAction::Abort(step, e),
            Ok(_) => match step {
                ShutdownStep::CreateTimer => ShutdownAction::StartTimer,
                ShutdownStep::StartTimer => ShutdownAction::RunCallback,
                ShutdownStep::Callback => ShutdownAction::StopTimer,
                ShutdownStep::StopTimer => ShutdownAction::Finish,
            },
        },
    }
}

/// A shutdown whose steps all succeed takes them in one order: create the
/// timer, start it, run the callback, stop the timer, finish. Each action is
/// the one after a successful step; none comes twice, and the callback comes
/// after starting and before stopping.
pub proof fn lemma_shutdown_order()
    ensures
        action_after_success(ShutdownStep::CreateTimer) is StartTimer,
        action_after_success(ShutdownStep::StartTimer) is RunCallback,
        action_after_success(ShutdownStep::Callback) is StopTimer,
        action_after_success(ShutdownStep::StopTimer) is Finish,
        forall|step: ShutdownStep| !(#[trigger] action_after_success(step) is CreateTimer),
        forall|step: ShutdownStep|
            #[trigger] action_after_success(step) is RunCallback <==> step
                == ShutdownStep::StartTimer,
        forall|step: ShutdownStep|
            #[trigger] action_after_success(step) is StopTimer <==> step == ShutdownStep::Callback,
{
}

} // verus!
