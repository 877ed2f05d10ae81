//! Decisions of handler threads: when stopping a handle asks its thread to
//! exit, which channel a selection served, and the data gathered from the
//! thread's pollers when no channel had anything.

use crate::errors::ErrorWrap;
use vstd::prelude::*;

verus! {

/// Remembers whether a stop was requested, so that a handle asks its thread
/// to exit at most once however often it is stopped.
#[derive(Clone, Copy, Debug)]
pub struct StopLatch {
    stop_requested: bool,
}

impl StopLatch {
    /// Whether a stop was requested.
    pub closed spec fn requested(self) -> bool {
        self.stop_requested
    }

    /// A latch before any stop.
    pub fn new() -> (latch: Self)
        ensures
            !latch.requested(),
    {
        StopLatch { stop_requested: false }
    }

    /// Whether stopping now has to ask the thread to exit: only the first
    /// stop does.
    pub fn needs_terminate(&self) -> (terminate: bool)
        ensures
            terminate == stop_asks_exit(*self),
    {
        !self.stop_requested
    }

    /// Records that the stop was carried out.
    pub fn mark_stopped(&mut self)
        ensures
            final(self).requested(),
    {
        self.stop_requested = true;
    }
}

/// Whether stopping a handle whose latch reads `latch` asks its thread to
/// exit.
pub open spec fn stop_asks_exit(latch: StopLatch) -> bool {
    !latch.requested()
}

/// Once a stop was carried out, no later stop asks the thread to exit: a
/// handle asks its thread to exit at most once.
pub proof fn lemma_stop_asks_exit_once(after_stop: StopLatch)
    requires
        after_stop.requested(),
    ensures
        !stop_asks_exit(after_stop),
{
}

/// Which channel a selection served.
#[derive(PartialEq, Eq, Structural, Clone, Copy, Debug)]
pub enum SelectRoute {
    /// The exit channel: the thread stops.
    Exit,
    /// The handler's event channel.
    HandlerEvent,
    /// The timer channel.
    TimerEvent,
}

/// The channel that the selected operation `index` belongs to, the exit
/// channel first when indices coincide; `None` for an index of no channel.
pub fn route_selection(index: usize, exit_index: usize, event_index: usize, timer_index: usize) -> (route: Option<SelectRoute>)
    ensures
        route == (if index == exit_index {
            Some(SelectRoute::Exit)
        } else if index == event_index {
            Some(SelectRoute::HandlerEvent)
        } else if index == timer_index {
            Some(SelectRoute::TimerEvent)
        } else {
            None
        }),
{
    if index == exit_index {
        Some(SelectRoute::Exit)
    } else if index == event_index {
        Some(SelectRoute::HandlerEvent)
    } else if index == timer_index {
        Some(SelectRoute::TimerEvent)
    } else {
        None
    }
}

/// The events of the successful polls, in poll order.
pub open spec fn ok_events<E>(results: Seq<Result<Vec<E>, ErrorWrap>>) -> Seq<E>
    decreases results.len(),
{
    if results.len() == 0 {
        Seq::empty()
    } else {
        ok_events(results.drop_last()) + match results.last() {
            Ok(events) => events@,
            Err(_) => Seq::empty(),
        }
    }
}

/// The errors of the failed polls, in poll order.
pub open spec fn poll_errors<E>(results: Seq<Result<Vec<E>, ErrorWrap>>) -> Seq<ErrorWrap>
    decreases results.len(),
{
    if results.len() == 0 {
        Seq::empty()
    } else {
        poll_errors(results.drop_last()) + match results.last() {
            Ok(_) => Seq::empty(),
            Err(e) => seq![e],
        }
    }
}

/// Gathers the events of all polls, in order, and the errors of the polls
/// that failed, in order.
pub fn gather_read_events<E>(results: Vec<Result<Vec<E>, ErrorWrap>>) -> (gathered: (
    Vec<E>,
    Vec<ErrorWrap>,
))
    ensures
        gathered.0@ == ok_events(results@),
        gathered.1@ == poll_errors(results@),
{
    let ghost all = results@;
    let mut events: Vec<E> = Vec::new();
    let mut errors: Vec<ErrorWrap> = Vec::new();
    for result in it: results.into_iter()
        invariant
            it.seq() == all,
            events@ == ok_events(all.take(it.index() as int)),
            errors@ == poll_errors(all.take(it.index() as int)),
    {
        let ghost i = it.index() as int;
        assert(all.take(i + 1).drop_last() =~= all.take(i));
        match result {
            Ok(mut polled) => {
                events.append(&mut polled);
            },
            Err(e) => {
                errors.push(e);
            },
        }
    }
    assert(all.take(all.len() as int) =~= all);
    (events, errors)
}

} // verus!
