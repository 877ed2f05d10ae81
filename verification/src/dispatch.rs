//! The dispatcher of the example program: a counter that picks which event
//! the workers get next, and the routing of its timers.

use crate::sg_threading::timer::TimerID;
use crate::text::{decimal, push_decimal};
use vstd::prelude::*;
use vstd::string::*;

verus! {

/// The events the dispatcher sends its workers.
#[derive(PartialEq, Eq, Structural, Clone, Copy, Debug)]
pub enum WorkerEvent {
    TestA,
    TestB,
    TestC,
}

/// The event sent when the dispatch counter reads `count`: the events take
/// turns, A, B, C, A, ...
pub open spec fn spec_event_for_count(count: int) -> WorkerEvent {
    if count % 3 == 0 {
        WorkerEvent::TestA
    } else if count % 3 == 1 {
        WorkerEvent::TestB
    } else {
        WorkerEvent::TestC
    }
}

/// The event sent when the dispatch counter reads `count`.
pub fn event_for_count(count: i32) -> (event: WorkerEvent)
    requires
        count >= 0,
    ensures
        event == spec_event_for_count(count as int),
{
    match count % 3 {
        0 => WorkerEvent::TestA,
        1 => WorkerEvent::TestB,
        _ => WorkerEvent::TestC,
    }
}

/// Which of the dispatcher's timers expired.
#[derive(PartialEq, Eq, Structural, Clone, Copy, Debug)]
pub enum TimerRoute {
    /// The dispatch timer: only reported.
    Dispatch,
    /// The loopback timer: the workers get this event.
    Loopback(WorkerEvent),
    /// A timer the dispatcher does not know.
    Unexpected(TimerID),
}

/// The dispatcher: its two timers, its dispatch counter and its workers.
pub struct Dispatcher<W> {
    pub dispatch_timer_id: TimerID,
    pub dispatch_cntr: i32,
    pub loopback_timer_id: TimerID,
    pub workers: Vec<W>,
}

impl<W> Dispatcher<W> {
    /// A dispatcher that has dispatched nothing yet.
    pub fn new(workers: Vec<W>) -> (dispatcher: Self)
        ensures
            dispatcher.dispatch_timer_id == 0,
            dispatcher.dispatch_cntr == 0,
            dispatcher.loopback_timer_id == 0,
            dispatcher.workers == workers,
    {
        Dispatcher { dispatch_timer_id: 0, dispatch_cntr: 0, loopback_timer_id: 0, workers }
    }

    /// A dispatch request: the event for the current count, which then
    /// advances.
    pub fn on_dispatch(&mut self) -> (event: WorkerEvent)
        requires
            0 <= old(self).dispatch_cntr < i32::MAX,
        ensures
            event == spec_event_for_count(old(self).dispatch_cntr as int),
            final(self).dispatch_cntr == old(self).dispatch_cntr + 1,
            final(self).dispatch_timer_id == old(self).dispatch_timer_id,
            final(self).loopback_timer_id == old(self).loopback_timer_id,
            final(self).workers == old(self).workers,
    {
        let event = event_for_count(self.dispatch_cntr);
        self.dispatch_cntr = self.dispatch_cntr + 1;
        event
    }

    /// What an expired timer means: the dispatch timer is checked first, then
    /// the loopback timer, whose event follows the count without advancing it.
    pub fn route_timer(&self, id: TimerID) -> (route: TimerRoute)
        requires
            id != self.dispatch_timer_id && id == self.loopback_timer_id ==> self.dispatch_cntr
                >= 0,
        ensures
            route == (if id == self.dispatch_timer_id {
                TimerRoute::Dispatch
            } else if id == self.loopback_timer_id {
                TimerRoute::Loopback(spec_event_for_count(self.dispatch_cntr as int))
            } else {
                TimerRoute::Unexpected(id)
            }),
    {
        if id == self.dispatch_timer_id {
            TimerRoute::Dispatch
        } else if id == self.loopback_timer_id {
            TimerRoute::Loopback(event_for_count(self.dispatch_cntr))
        } else {
            TimerRoute::Unexpected(id)
        }
    }
}

/// Three dispatches in a row send the three events, one each, and the
/// fourth starts over.
pub proof fn lemma_dispatch_cycles(count: int)
    requires
        count >= 0,
    ensures
        spec_event_for_count(count + 3) == spec_event_for_count(count),
        spec_event_for_count(count) != spec_event_for_count(count + 1),
        spec_event_for_count(count + 1) != spec_event_for_count(count + 2),
        spec_event_for_count(count) != spec_event_for_count(count + 2),
{
}

/// `worker-<n>`, the name of the `n`-th worker (counting from one).
pub open spec fn worker_name_text(index: nat) -> Seq<char> {
    "worker-"@ + decimal(index + 1)
}

/// The name of the worker made at position `index` (counting from zero).
pub fn worker_name(index: usize) -> (name: String)
    requires
        index < usize::MAX,
    ensures
        name@ == worker_name_text(index as nat),
{
    let mut name = String::from_str("worker-");
    push_decimal(&mut name, (index + 1) as u128);
    proof {
        reveal_strlit("worker-");
    }
    assert(name@ =~= worker_name_text(index as nat));
    name
}

} // verus!
