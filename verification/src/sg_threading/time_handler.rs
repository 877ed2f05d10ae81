//! The timer thread of the handler runtime: the requests it serves, the
//! table of timers it keeps, and what each request does to that table.

use crate::errors::ErrorWrap;
use crate::sg_threading::timer::{TimerID, TimerType};
use crate::time_span::TimeSpan;
use std::collections::HashMap;
use vstd::prelude::*;
use vstd::std_specs::iter::IteratorSpec;
use vstd::string::*;

verus! {

broadcast use vstd::std_specs::hash::group_hash_axioms;

/// A request to the timer thread. `Tx` is where an expired timer sends its
/// identifier.
#[derive(Debug)]
pub enum TimerEV<Tx> {
    AddTimer { id: TimerID, name: String, delta: TimeSpan, timer_type: TimerType, timer_tx: Tx },
    RemoveTimer { id: TimerID },
    StartTimer { id: TimerID },
    StopTimer { id: TimerID },
    StopThread,
}

/// The counter behind timer identifiers: it counts up from zero and wraps
/// around after `usize::MAX`.
pub struct TimerIdCounter {
    value: usize,
}

impl TimerIdCounter {
    /// The identifier that the counter hands out next.
    pub closed spec fn next_id(self) -> usize {
        self.value
    }

    /// A counter that hands out zero first.
    pub fn new() -> (counter: Self)
        ensures
            counter.next_id() == 0,
    {
        TimerIdCounter { value: 0 }
    }
}

/// The identifier after `id`, wrapping around after `usize::MAX`.
pub open spec fn wrapping_next(id: usize) -> usize {
    if id == usize::MAX {
        0
    } else {
        (id + 1) as usize
    }
}

/// The identifier `k` steps after `id`.
pub open spec fn wrapping_steps(id: usize, k: nat) -> usize
    decreases k,
{
    if k == 0 {
        id
    } else {
        wrapping_next(wrapping_steps(id, (k - 1) as nat))
    }
}

/// `k` identifiers after `id` comes `(id + k) mod 2^bits`: the counter
/// hands out every `usize` once before it repeats one.
pub proof fn lemma_wrapping_steps(id: usize, k: nat)
    ensures
        wrapping_steps(id, k) as int == (id + k) % (usize::MAX as int + 1),
    decreases k,
{
    let m = usize::MAX as int + 1;
    if k == 0 {
        assert((id + 0) % m == id as int) by (nonlinear_arith)
            requires
                0 <= id < m,
        ;
    } else {
        lemma_wrapping_steps(id, (k - 1) as nat);
        let x = id + k - 1;
        assert(wrapping_steps(id, k) == wrapping_next(wrapping_steps(id, (k - 1) as nat)));
        assert((x % m + 1 == m ==> (x + 1) % m == 0) && (x % m + 1 < m ==> (x + 1) % m == x % m
            + 1) && x % m + 1 <= m) by (nonlinear_arith)
            requires
                m > 1,
                x >= 0,
        ;
    }
}

/// From a fresh counter, the first `k` identifiers handed out (at most one
/// per `usize` value) are `0, 1, ..., k - 1`: none is skipped and none is
/// handed out twice.
pub proof fn lemma_first_ids(k: nat)
    requires
        k <= usize::MAX as nat + 1,
    ensures
        forall|j: nat| j < k ==> #[trigger] wrapping_steps(0, j) == j,
        forall|i: nat, j: nat| i < j < k ==> wrapping_steps(0, i) != wrapping_steps(0, j),
{
    assert forall|j: nat| j < k implies #[trigger] wrapping_steps(0, j) == j by {
        lemma_wrapping_steps(0, j);
        let m = usize::MAX as int + 1;
        assert((0 + j as int) % m == j as int) by (nonlinear_arith)
            requires
                0 <= j < m,
        ;
    }
    assert forall|i: nat, j: nat| i < j < k implies wrapping_steps(0, i) != wrapping_steps(0, j) by {
        assert(wrapping_steps(0, i) == i);
        assert(wrapping_steps(0, j) == j);
    }
}

/// A run of `k` calls of `get_next_timer_id` on one counter, started fresh:
/// `next_ids[i]` is the counter's next identifier before call `i` and
/// `ids[i]` what call `i` hands out, as its contract says. The identifiers
/// handed out are `0, 1, ..., k - 1`: none skipped, none twice.
pub proof fn lemma_ids_of_a_run(next_ids: Seq<usize>, ids: Seq<usize>)
    requires
        next_ids.len() == ids.len() + 1,
        next_ids[0] == 0,
        ids.len() <= usize::MAX as nat + 1,
        forall|i: int|
            0 <= i < ids.len() ==> #[trigger] ids[i] == next_ids[i] && next_ids[i + 1]
                == wrapping_next(ids[i]),
    ensures
        forall|i: int| 0 <= i < ids.len() ==> #[trigger] ids[i] == i,
        forall|i: int, j: int| 0 <= i < j < ids.len() ==> ids[i] != ids[j],
{
    assert forall|i: int| 0 <= i <= ids.len() implies #[trigger] next_ids[i] == wrapping_steps(
        0,
        i as nat,
    ) by {
        lemma_run_follows_steps(next_ids, ids, i);
    }
    lemma_first_ids(ids.len());
    assert forall|i: int| 0 <= i < ids.len() implies #[trigger] ids[i] == i by {
        assert(next_ids[i] == wrapping_steps(0, i as nat));
        assert(wrapping_steps(0, i as nat) == i as nat);
    }
}

proof fn lemma_run_follows_steps(next_ids: Seq<usize>, ids: Seq<usize>, i: int)
    requires
        next_ids.len() == ids.len() + 1,
        next_ids[0] == 0,
        0 <= i <= ids.len(),
        forall|i: int|
            0 <= i < ids.len() ==> #[trigger] ids[i] == next_ids[i] && next_ids[i + 1]
                == wrapping_next(ids[i]),
    ensures
        next_ids[i] == wrapping_steps(0, i as nat),
    decreases i,
{
    if i > 0 {
        lemma_run_follows_steps(next_ids, ids, i - 1);
        assert(ids[i - 1] == next_ids[i - 1]);
    }
}

/// Hands out the next timer identifier.
pub fn get_next_timer_id(counter: &mut TimerIdCounter) -> (id: TimerID)
    ensures
        id == old(counter).next_id(),
        final(counter).next_id() == wrapping_next(id),
{
    let id = counter.value;
    counter.value = if id == usize::MAX {
        0
    } else {
        id + 1
    };
    id
}

/// The timers of the timer thread, by identifier.
pub struct TimerTable<T> {
    timers: HashMap<TimerID, T>,
}

impl<T> View for TimerTable<T> {
    type V = Map<TimerID, T>;

    closed spec fn view(&self) -> Map<TimerID, T> {
        self.timers@
    }
}

impl<T> TimerTable<T> {
    /// A table with no timers.
    pub fn new() -> (table: Self)
        ensures
            table@ == Map::<TimerID, T>::empty(),
    {
        TimerTable { timers: HashMap::new() }
    }

    /// Records `timer` under `id`, handing back the timer it replaces.
    pub fn insert(&mut self, id: TimerID, timer: T) -> (replaced: Option<T>)
        ensures
            final(self)@ == old(self)@.insert(id, timer),
            old(self)@.contains_key(id) <==> replaced is Some,
            replaced matches Some(r) ==> r == old(self)@[id],
    {
        self.timers.insert(id, timer)
    }

    /// Takes the timer under `id` out of the table, if there is one.
    pub fn remove(&mut self, id: TimerID) -> (removed: Option<T>)
        ensures
            final(self)@ == old(self)@.remove(id),
            old(self)@.contains_key(id) <==> removed is Some,
            removed matches Some(r) ==> r == old(self)@[id],
    {
        self.timers.remove(&id)
    }

    /// The timer under `id`, if there is one.
    pub fn get(&self, id: TimerID) -> (timer: Option<&T>)
        ensures
            self@.contains_key(id) <==> timer is Some,
            timer matches Some(t) ==> *t == self@[id],
    {
        self.timers.get(&id)
    }

    /// The number of timers.
    pub fn len(&self) -> (n: usize)
        ensures
            n == self@.len(),
    {
        self.timers.len()
    }

    /// The identifiers of all timers, each once.
    pub fn ids(&self) -> (ids: Vec<TimerID>)
        ensures
            ids@.to_set() == self@.dom(),
            ids@.no_duplicates(),
    {
        let mut ids: Vec<TimerID> = Vec::new();
        let ghost keys = self.timers.keys().remaining();
        for k in it: self.timers.keys()
            invariant
                it.seq() == keys,
                ids@.len() == it.index(),
                forall|i: int| 0 <= i < ids@.len() ==> ids@[i] == *it.seq()[i],
        {
            ids.push(*k);
        }
        assert(ids@ =~= keys.unref());
        ids
    }
}

/// Removing a timer undoes adding it: the table afterwards is the table
/// before the addition, less any timer that was under the same identifier.
pub proof fn lemma_remove_undoes_add<T>(table: Map<TimerID, T>, id: TimerID, timer: T)
    ensures
        table.insert(id, timer).remove(id) == table.remove(id),
        !table.contains_key(id) ==> table.insert(id, timer).remove(id) == table,
{
    assert(table.insert(id, timer).remove(id) =~= table.remove(id));
    if !table.contains_key(id) {
        assert(table.remove(id) =~= table);
    }
}

/// Which action on a timer failed.
#[derive(PartialEq, Eq, Structural, Clone, Copy, Debug)]
pub enum TimerFailure {
    Add,
    Start,
    Stop,
}

/// Whether the timer thread goes on serving requests.
#[derive(PartialEq, Eq, Structural, Clone, Copy, Debug)]
pub enum TimerLoop {
    Continue,
    Exit,
}

/// What serving one request came to.
pub struct TimerEventResult {
    pub flow: TimerLoop,
    pub failure: Option<(TimerFailure, ErrorWrap)>,
}

/// The words that open the report of a failed action.
pub open spec fn spec_failure_prefix(failure: TimerFailure) -> Seq<char> {
    match failure {
        TimerFailure::Add => "failed to add timer. "@,
        TimerFailure::Start => "failed to start timer. "@,
        TimerFailure::Stop => "failed to stop timer. "@,
    }
}

/// The report of a failed action: the action, then the error's text (the
/// I/O error's display text for an I/O error).
pub fn failure_report(failure: TimerFailure, error: &ErrorWrap) -> (text: String)
    ensures
        error matches ErrorWrap::Generic(g) ==> text@ == spec_failure_prefix(failure) + g@,
        error matches ErrorWrap::Io(e) ==> exists|m: String| #[trigger]
            to_string_from_display_ensures::<std::io::Error>(&e, m) && text@
                == spec_failure_prefix(failure) + m@,
{
    let mut text = match failure {
        TimerFailure::Add => String::from_str("failed to add timer. "),
        TimerFailure::Start => String::from_str("failed to start timer. "),
        TimerFailure::Stop => String::from_str("failed to stop timer. "),
    };
    let message = error.message();
    text.append(message.as_str());
    assert(error matches ErrorWrap::Io(e) ==> to_string_from_display_ensures::<std::io::Error>(
        &e,
        message,
    ) && text@ == spec_failure_prefix(failure) + message@);
    text
}

/// Serves one request. Adding creates the timer through `create` and records
/// it under its identifier, in place of any timer recorded there before;
/// removing forgets the timer; starting and stopping act through `start` and
/// `stop` on a recorded timer and do nothing for an unknown identifier;
/// stopping the thread ends the loop. A failed action leaves the table as it
/// was and is handed back. Each request uses only its own action: `create`
/// need only be callable for adding, `start` for starting and `stop` for
/// stopping, so serving a start never stops a timer (nor a stop starts one).
pub fn handle_timer_event<T, Tx, Create, Start, Stop>(
    table: &mut TimerTable<T>,
    ev: TimerEV<Tx>,
    create: &Create,
    start: &Start,
    stop: &Stop,
) -> (result: TimerEventResult) where
    Create: Fn(TimerID, String, TimeSpan, TimerType, Tx) -> Result<T, ErrorWrap>,
    Start: Fn(&T) -> Result<(), ErrorWrap>,
    Stop: Fn(&T) -> Result<(), ErrorWrap>,

    requires
        ev is AddTimer ==> forall|
            id: TimerID,
            name: String,
            delta: TimeSpan,
            timer_type: TimerType,
            tx: Tx,
        | create.requires((id, name, delta, timer_type, tx)),
        ev is StartTimer ==> forall|t: &T| start.requires((t,)),
        ev is StopTimer ==> forall|t: &T| stop.requires((t,)),
    ensures
        (result.flow == TimerLoop::Exit) <==> (ev is StopThread),
        match ev {
            TimerEV::AddTimer { id, name, delta, timer_type, timer_tx } => match result.failure {
                None => {
                    &&& final(table)@.contains_key(id)
                    &&& final(table)@.remove(id) == old(table)@.remove(id)
                    &&& create.ensures(
                        (id, name, delta, timer_type, timer_tx),
                        Ok(final(table)@[id]),
                    )
                },
                Some((failure, e)) => {
                    &&& failure == TimerFailure::Add
                    &&& final(table)@ == old(table)@
                    &&& create.ensures((id, name, delta, timer_type, timer_tx), Err(e))
                },
            },
            TimerEV::RemoveTimer { id } => {
                &&& final(table)@ == old(table)@.remove(id)
                &&& result.failure is None
            },
            TimerEV::StartTimer { id } => {
                &&& final(table)@ == old(table)@
                &&& result.failure matches Some((failure, e)) ==> failure == TimerFailure::Start
                    && old(table)@.contains_key(id) && start.ensures((&old(table)@[id],), Err(e))
                &&& (result.failure is None && old(table)@.contains_key(id)) ==> start.ensures(
                    (&old(table)@[id],),
                    Ok(()),
                )
            },
            TimerEV::StopTimer { id } => {
                &&& final(table)@ == old(table)@
                &&& result.failure matches Some((failure, e)) ==> failure == TimerFailure::Stop
                    && old(table)@.contains_key(id) && stop.ensures((&old(table)@[id],), Err(e))
                &&& (result.failure is None && old(table)@.contains_key(id)) ==> stop.ensures(
                    (&old(table)@[id],),
                    Ok(()),
                )
            },
            TimerEV::StopThread => {
                &&& final(table)@ == old(table)@
                &&& result.failure is None
            },
        },
{
    match ev {
        TimerEV::AddTimer { id, name, delta, timer_type, timer_tx } => {
            match create(id, name, delta, timer_type, timer_tx) {
                Ok(timer) => {
                    let _replaced = table.insert(id, timer);
                    TimerEventResult { flow: TimerLoop::Continue, failure: None }
                },
                Err(e) => TimerEventResult {
                    flow: TimerLoop::Continue,
                    failure: Some((TimerFailure::Add, e)),
                },
            }
        },
        TimerEV::RemoveTimer { id } => {
            let _removed = table.remove(id);
            TimerEventResult { flow: TimerLoop::Continue, failure: None }
        },
        TimerEV::StartTimer { id } => {
            let failure = match table.get(id) {
                Some(timer) => {
                    let outcome = start(timer);
                    let ghost got = outcome;
                    if let Err(e) = outcome {
                        Some((TimerFailure::Start, e))
                    } else {
                        assert(got matches Ok(u) && u == ());
                        None
                    }
                },
                None => None,
            };
            TimerEventResult { flow: TimerLoop::Continue, failure }
        },
        TimerEV::StopTimer { id } => {
            let failure = match table.get(id) {
                Some(timer) => {
                    let outcome = stop(timer);
                    let ghost got = outcome;
                    if let Err(e) = outcome {
                        Some((TimerFailure::Stop, e))
                    } else {
                        assert(got matches Ok(u) && u == ());
                        None
                    }
                },
                None => None,
            };
            TimerEventResult { flow: TimerLoop::Continue, failure }
        },
        TimerEV::StopThread => TimerEventResult { flow: TimerLoop::Exit, failure: None },
    }
}

/// Whether the identifier `id` is among the reported failures.
pub open spec fn reported(failures: Seq<(TimerID, ErrorWrap)>, id: TimerID) -> bool {
    exists|i: int| 0 <= i < failures.len() && (#[trigger] failures[i]).0 == id
}

/// Stops every timer of the table through `stop`, as the timer thread does
/// on its way out, and hands back the identifiers of the timers that failed
/// to stop, with their errors: every timer of the table was either stopped
/// or is reported.
pub fn stop_all_timers<T, Stop>(table: &TimerTable<T>, stop: &Stop) -> (failures: Vec<
    (TimerID, ErrorWrap),
>) where Stop: Fn(&T) -> Result<(), ErrorWrap>
    requires
        forall|t: &T| stop.requires((t,)),
    ensures
        forall|i: int|
            0 <= i < failures@.len() ==> {
                let (id, e) = #[trigger] failures@[i];
                table@.contains_key(id) && stop.ensures((&table@[id],), Err(e))
            },
        forall|id: TimerID| #[trigger]
            table@.contains_key(id) ==> stop.ensures((&table@[id],), Ok(())) || reported(
                failures@,
                id,
            ),
{
    let mut failures: Vec<(TimerID, ErrorWrap)> = Vec::new();
    let ghost entries = table.timers.iter().remaining();
    for entry in it: table.timers.iter()
        invariant
            it.seq() == entries,
            forall|t: &T| stop.requires((t,)),
            forall|i: int|
                0 <= i < failures@.len() ==> {
                    let (id, e) = #[trigger] failures@[i];
                    table.timers@.contains_key(id) && stop.ensures((&table.timers@[id],), Err(e))
                },
            forall|j: int|
                0 <= j < it.index() ==> stop.ensures((it.seq()[j].1,), Ok(())) || reported(
                    failures@,
                    *(#[trigger] it.seq()[j]).0,
                ),
    {
        let ghost j = it.index() as int;
        let ghost before = failures@;
        let (id, timer) = entry;
        let outcome = stop(timer);
        let ghost got = outcome;
        if let Err(e) = outcome {
            failures.push((*id, e));
            assert(failures@[before.len() as int].0 == *id);
        } else {
            assert(got matches Ok(u) && u == ());
        }
        assert forall|k: int| 0 <= k < j + 1 implies stop.ensures((it.seq()[k].1,), Ok(()))
            || reported(failures@, *(#[trigger] it.seq()[k]).0) by {
            if k < j {
                if reported(before, *it.seq()[k].0) {
                    let w = choose|w: int| 0 <= w < before.len() && (#[trigger] before[w]).0
                        == *it.seq()[k].0;
                    assert(failures@[w] == before[w]);
                }
            }
        }
    }
    assert forall|id: TimerID| #[trigger]
        table@.contains_key(id) implies stop.ensures((&table@[id],), Ok(())) || reported(
        failures@,
        id,
    ) by {
        assert(entries.contains((&id, &table.timers@[id])));
        let j = choose|j: int| 0 <= j < entries.len() && entries[j] == (&id, &table.timers@[id]);
        assert(*entries[j].0 == id);
    }
    failures
}

} // verus!
