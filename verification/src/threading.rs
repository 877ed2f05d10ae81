//! Decisions of the program's handler threads: how a handler asks its
//! thread to exit, and how an executor finds the timers it owns.

use crate::errors::ErrorWrap;
use crate::sg_threading::time_handler::TimerTable;
use crate::text::{decimal, push_decimal};
use crate::timer::TimerId;
use vstd::prelude::*;
use vstd::string::*;

verus! {

/// An event for a handler thread: one for its handler, a timer's callback
/// to run, or the request to exit.
pub enum ThreadEvent<HandlerEvent, Callback> {
    Handler(HandlerEvent),
    Timer { callback: Callback },
    Exit,
}

impl<HandlerEvent, Callback> ThreadEvent<HandlerEvent, Callback> {
    /// Whether the thread stops processing events after this one: it does
    /// after the exit request (having acknowledged it), and after nothing
    /// else.
    pub fn ends_processing(&self) -> (ends: bool)
        ensures
            ends == (self is Exit),
    {
        match self {
            ThreadEvent::Exit => true,
            _ => false,
        }
    }
}

/// How many failed attempts to send the exit event a handler makes before
/// the last one.
pub const MAX_EXIT_ATTEMPTS: u8 = 5;

/// How asking a thread to exit ended.
#[derive(PartialEq, Eq, Structural, Clone, Copy, Debug)]
pub enum TerminateOutcome {
    /// The thread was not running (any more).
    NotRunning,
    /// The exit event was sent.
    ExitSent,
    /// Every attempt to send the exit event failed.
    GaveUp,
}

/// What a request for a thread to exit has seen last.
#[derive(PartialEq, Eq, Structural, Clone, Copy, Debug)]
pub enum TerminateObservation {
    /// Whether the thread was found running.
    Running(bool),
    /// Whether sending the exit event succeeded.
    Sent(bool),
}

/// What a request for a thread to exit does next.
#[derive(PartialEq, Eq, Structural, Clone, Copy, Debug)]
pub enum TerminateAction {
    /// Look whether the thread still runs.
    CheckRunning,
    /// Send the exit event.
    SendExit,
    /// The request is over.
    Finish(TerminateOutcome),
}

/// The next step of a request for a thread to exit.
#[derive(PartialEq, Eq, Structural, Clone, Copy, Debug)]
pub struct TerminateStep {
    pub action: TerminateAction,
    /// The failed sends so far.
    pub failed_attempts: u8,
    /// A send failed just now; this is its number, counted from one.
    pub report_failure: Option<u8>,
}

/// The step after `last` with `failed_attempts` failed sends so far (`None`
/// before the first look): look whether the thread runs; if it does not,
/// finish; if it does, send the exit event; a successful send finishes the
/// request; a failed one counts, and the request looks again unless this was
/// failure `MAX_EXIT_ATTEMPTS + 1`, with which it gives up.
pub open spec fn spec_terminate_step(failed_attempts: u8, last: Option<TerminateObservation>) -> TerminateStep {
    match last {
        None => TerminateStep {
            action: TerminateAction::CheckRunning,
            failed_attempts,
            report_failure: None,
        },
        Some(TerminateObservation::Running(false)) => TerminateStep {
            action: TerminateAction::Finish(TerminateOutcome::NotRunning),
            failed_attempts,
            report_failure: None,
        },
        Some(TerminateObservation::Running(true)) => TerminateStep {
            action: TerminateAction::SendExit,
            failed_attempts,
            report_failure: None,
        },
        Some(TerminateObservation::Sent(true)) => TerminateStep {
            action: TerminateAction::Finish(TerminateOutcome::ExitSent),
            failed_attempts,
            report_failure: None,
        },
        Some(TerminateObservation::Sent(false)) => {
            let failed = (failed_attempts + 1) as u8;
            TerminateStep {
                action: if failed <= MAX_EXIT_ATTEMPTS {
                    TerminateAction::CheckRunning
                } else {
                    TerminateAction::Finish(TerminateOutcome::GaveUp)
                },
                failed_attempts: failed,
                report_failure: Some(failed),
            }
        },
    }
}

/// The next step of a request for a thread to exit, after `last` with
/// `failed_attempts` failed sends so far.
pub fn next_terminate_step(failed_attempts: u8, last: Option<TerminateObservation>) -> (step:
    TerminateStep)
    requires
        failed_attempts <= MAX_EXIT_ATTEMPTS,
    ensures
        step == spec_terminate_step(failed_attempts, last),
{
    match last {
        None => TerminateStep {
            action: TerminateAction::CheckRunning,
            failed_attempts,
            report_failure: None,
        },
        Some(TerminateObservation::Running(false)) => TerminateStep {
            action: TerminateAction::Finish(TerminateOutcome::NotRunning),
            failed_attempts,
            report_failure: None,
        },
        Some(TerminateObservation::Running(true)) => TerminateStep {
            action: TerminateAction::SendExit,
            failed_attempts,
            report_failure: None,
        },
        Some(TerminateObservation::Sent(true)) => TerminateStep {
            action: TerminateAction::Finish(TerminateOutcome::ExitSent),
            failed_attempts,
            report_failure: None,
        },
        Some(TerminateObservation::Sent(false)) => {
            let failed = failed_attempts + 1;
            TerminateStep {
                action: if failed <= MAX_EXIT_ATTEMPTS {
                    TerminateAction::CheckRunning
                } else {
                    TerminateAction::Finish(TerminateOutcome::GaveUp)
                },
                failed_attempts: failed,
                report_failure: Some(failed),
            }
        },
    }
}

/// The steps of a request for a thread to exit, each answered as asked:
/// after the first look, `observations[i]` answers the action of step `i`
/// (a look is answered with `Running`, a send with `Sent`).
pub open spec fn terminate_steps(observations: Seq<TerminateObservation>) -> Seq<TerminateStep>
    decreases observations.len(),
{
    if observations.len() == 0 {
        seq![spec_terminate_step(0, None)]
    } else {
        let before = terminate_steps(observations.drop_last());
        before.push(spec_terminate_step(before.last().failed_attempts, Some(observations.last())))
    }
}

/// Whether each observation answers the action before it, and the request
/// was not over before it.
pub open spec fn answers_actions(observations: Seq<TerminateObservation>) -> bool {
    forall|i: int|
        0 <= i < observations.len() ==> {
            let action = #[trigger] terminate_steps(observations.take(i)).last().action;
            &&& !(action is Finish)
            &&& action is CheckRunning ==> observations[i] is Running
            &&& action is SendExit ==> observations[i] is Sent
        }
}

/// The number of sends that succeeded in a run of observations.
pub open spec fn successful_sends(observations: Seq<TerminateObservation>) -> nat
    decreases observations.len(),
{
    if observations.len() == 0 {
        0
    } else {
        successful_sends(observations.drop_last()) + if observations.last()
            == TerminateObservation::Sent(true) {
            1nat
        } else {
            0nat
        }
    }
}

/// The number of sends in a run of observations.
pub open spec fn sends(observations: Seq<TerminateObservation>) -> nat
    decreases observations.len(),
{
    if observations.len() == 0 {
        0
    } else {
        sends(observations.drop_last()) + if observations.last() is Sent {
            1nat
        } else {
            0nat
        }
    }
}

/// However the answers come, a request for a thread to exit sends at most
/// one exit event, sends nothing once it found the thread not running, and
/// makes at most `MAX_EXIT_ATTEMPTS + 1` sends in all. Each failed send is
/// counted: the count after the run is the number of failed sends.
pub proof fn lemma_terminate_sends_once(observations: Seq<TerminateObservation>)
    requires
        answers_actions(observations),
    ensures
        successful_sends(observations) <= 1,
        successful_sends(observations) == 1 ==> terminate_steps(observations).last().action
            == TerminateAction::Finish(TerminateOutcome::ExitSent),
        terminate_steps(observations).last().failed_attempts == sends(observations)
            - successful_sends(observations),
        terminate_steps(observations).last().failed_attempts <= MAX_EXIT_ATTEMPTS + 1,
        terminate_steps(observations).last().action is SendExit ==> terminate_steps(
            observations,
        ).last().failed_attempts <= MAX_EXIT_ATTEMPTS,
        sends(observations) <= MAX_EXIT_ATTEMPTS + 1,
        terminate_steps(observations).last().action is CheckRunning ==> successful_sends(
            observations,
        ) == 0,
        terminate_steps(observations).last().action is SendExit ==> successful_sends(
            observations,
        ) == 0,
        terminate_steps(observations).last().action == TerminateAction::Finish(
            TerminateOutcome::NotRunning,
        ) ==> successful_sends(observations) == 0,
        terminate_steps(observations).last().action == TerminateAction::Finish(
            TerminateOutcome::GaveUp,
        ) ==> successful_sends(observations) == 0,
    decreases observations.len(),
{
    if observations.len() > 0 {
        let n = observations.len() - 1;
        let prefix = observations.drop_last();
        assert forall|i: int| 0 <= i < prefix.len() implies {
            let action = #[trigger] terminate_steps(prefix.take(i)).last().action;
            &&& !(action is Finish)
            &&& action is CheckRunning ==> prefix[i] is Running
            &&& action is SendExit ==> prefix[i] is Sent
        } by {
            assert(prefix.take(i) =~= observations.take(i));
        }
        lemma_terminate_sends_once(prefix);
        assert(observations.take(n) =~= prefix);
        let _ = terminate_steps(observations.take(n));
    }
}

/// What an executor wants to do with a timer.
#[derive(PartialEq, Eq, Structural, Clone, Copy, Debug)]
pub enum TimerAction {
    Start,
    Stop,
}

/// `Cannot <start|stop> timer with id=<id> that does not exist`.
pub open spec fn missing_timer_message(action: TimerAction, id: TimerId) -> Seq<char> {
    "Cannot "@ + match action {
        TimerAction::Start => "start"@,
        TimerAction::Stop => "stop"@,
    } + " timer with id="@ + decimal(id as nat) + " that does not exist"@
}

/// The timer under `id` that the executor is to start or stop, or the error
/// that names the missing timer.
pub fn timer_for<T>(timers: &TimerTable<T>, id: TimerId, action: TimerAction) -> (found: Result<&T, ErrorWrap>)
    ensures
        timers@.contains_key(id) <==> found is Ok,
        found matches Ok(t) ==> *t == timers@[id],
        found matches Err(e) ==> e matches ErrorWrap::Generic(m) && m@ == missing_timer_message(
            action,
            id,
        ),
{
    match timers.get(id) {
        Some(timer) => Ok(timer),
        None => {
            let mut message = String::from_str("Cannot ");
            match action {
                TimerAction::Start => message.append("start"),
                TimerAction::Stop => message.append("stop"),
            }
            message.append(" timer with id=");
            push_decimal(&mut message, id as u128);
            message.append(" that does not exist");
            proof {
                reveal_strlit("Cannot ");
                reveal_strlit("start");
                reveal_strlit("stop");
                reveal_strlit(" timer with id=");
                reveal_strlit(" that does not exist");
            }
            assert(message@ =~= missing_timer_message(action, id));
            Err(ErrorWrap::Generic(message))
        },
    }
}

} // verus!
