//! Timer bookkeeping of the runtime's own timer thread: identifiers, the
//! arming values handed to the POSIX timer, the expiry rule that the timer
//! thread applies when it is woken, and the timer's description.

use crate::text::{decimal, push_decimal};
use crate::time_span::TimeSpan;
use vstd::prelude::*;
use vstd::string::*;

verus! {

pub type TimerId = usize;

/// Whether a timer fires again after each period or once.
#[derive(PartialEq, Eq, Structural, Clone, Copy, Debug)]
pub enum TimerType {
    Periodic,
    FireOnce,
}

/// Source of timer identifiers: each identifier follows the last one handed
/// out, and after the second largest `usize` the count starts over at one,
/// so that neither zero nor `usize::MAX` is ever handed out.
pub struct TimerIdSource {
    last: usize,
}

/// The identifier that follows `last`.
pub open spec fn id_after(last: usize) -> usize {
    if last >= usize::MAX - 1 {
        1
    } else {
        (last + 1) as usize
    }
}

impl TimerIdSource {
    /// The identifier handed out last (zero before the first).
    pub closed spec fn last_id(self) -> usize {
        self.last
    }

    /// A source that has handed out nothing yet.
    pub fn new() -> (source: Self)
        ensures
            source.last_id() == 0,
    {
        TimerIdSource { last: 0 }
    }
}

/// Hands out the next timer identifier.
pub fn get_next_timer_id(source: &mut TimerIdSource) -> (id: TimerId)
    ensures
        id == id_after(old(source).last_id()),
        final(source).last_id() == id,
        1 <= id < usize::MAX,
{
    if source.last >= usize::MAX - 1 {
        source.last = 0;
    }
    source.last = source.last + 1;
    source.last
}

/// Identifiers handed out one after another never repeat before the count
/// starts over: `k` steps after `last` (fewer steps than there are
/// identifiers) lead to `last + k` reduced into `1..usize::MAX`.
pub open spec fn id_after_steps(last: usize, k: nat) -> usize
    decreases k,
{
    if k == 0 {
        last
    } else {
        id_after(id_after_steps(last, (k - 1) as nat))
    }
}

/// Starting from an identifier handed out before (or from zero), the
/// identifier `k` steps later is `(last - 1 + k) mod (usize::MAX - 1) + 1`;
/// so the identifiers of a cycle of `usize::MAX - 1` steps are all distinct.
pub proof fn lemma_ids_cycle(last: usize, k: nat)
    requires
        last < usize::MAX,
        k > 0,
    ensures
        id_after_steps(last, k) as int == (last - 1 + k) % ((usize::MAX - 1) as int) + 1,
    decreases k,
{
    let m = (usize::MAX - 1) as int;
    if k == 1 {
        assert(id_after_steps(last, 0) == last);
        assert(id_after_steps(last, 1) == id_after(last));
        assert((last - 1 + 1) % m == (if last == usize::MAX - 1 {
            0
        } else {
            last as int
        })) by (nonlinear_arith)
            requires
                m == usize::MAX - 1,
                0 <= last < usize::MAX,
        ;
    } else {
        lemma_ids_cycle(last, (k - 1) as nat);
        let x = last - 1 + k - 1;
        assert(id_after_steps(last, k) == id_after(id_after_steps(last, (k - 1) as nat)));
        assert((x % m + 1 == m ==> (x + 1) % m == 0) && (x % m + 1 < m ==> (x + 1) % m == x % m
            + 1) && x % m + 1 <= m) by (nonlinear_arith)
            requires
                m > 1,
                x >= 0,
        ;
    }
}

/// The identifiers handed out in one cycle of `usize::MAX - 1` steps are
/// pairwise distinct.
pub proof fn lemma_ids_distinct_within_cycle(last: usize, j: nat, k: nat)
    requires
        last < usize::MAX,
        0 < j < k,
        k - j < usize::MAX - 1,
    ensures
        id_after_steps(last, j) != id_after_steps(last, k),
{
    lemma_ids_cycle(last, j);
    lemma_ids_cycle(last, k);
    let m = (usize::MAX - 1) as int;
    let a = last - 1 + j;
    let b = last - 1 + k;
    assert(a % m != b % m) by (nonlinear_arith)
        requires
            m > 1,
            a >= 0,
            a < b,
            b - a < m,
    {
        if a % m == b % m {
            assert((b - a) % m == 0);
        }
    }
}

/// The values of a POSIX `itimerspec`: when the timer first expires, and
/// the period after that (zero for a timer that fires once).
#[derive(PartialEq, Eq, Structural, Clone, Copy, Debug)]
pub struct TimerSpec {
    pub value_secs: i64,
    pub value_nanos: i64,
    pub interval_secs: i64,
    pub interval_nanos: i64,
}

/// The arming values of a timer with period `delta`: it expires after
/// `delta` and, if periodic, every `delta` after that. The seconds are cast
/// to `i64` as they are.
pub open spec fn armed_spec(delta: TimeSpan, periodic: bool) -> TimerSpec {
    let secs = ((delta@ / 1_000_000_000) as u64) as i64;
    let nanos = ((delta@ % 1_000_000_000) as u32) as i64;
    TimerSpec {
        value_secs: secs,
        value_nanos: nanos,
        interval_secs: if periodic {
            secs
        } else {
            0
        },
        interval_nanos: if periodic {
            nanos
        } else {
            0
        },
    }
}

/// The values that disarm a timer.
pub open spec fn disarmed_spec() -> TimerSpec {
    TimerSpec { value_secs: 0, value_nanos: 0, interval_secs: 0, interval_nanos: 0 }
}

/// The arming values of a timer with period `delta`.
pub fn arm_spec(delta: &TimeSpan, periodic: bool) -> (spec: TimerSpec)
    ensures
        spec == armed_spec(*delta, periodic),
{
    let seconds = delta.as_secs() as i64;
    let ns = delta.subsec_nanos() as i64;
    TimerSpec {
        value_secs: seconds,
        value_nanos: ns,
        interval_secs: if periodic {
            seconds
        } else {
            0
        },
        interval_nanos: if periodic {
            ns
        } else {
            0
        },
    }
}

/// The values that disarm a timer.
pub fn disarm_spec() -> (spec: TimerSpec)
    ensures
        spec == disarmed_spec(),
{
    TimerSpec { value_secs: 0, value_nanos: 0, interval_secs: 0, interval_nanos: 0 }
}

/// How early the timer thread still counts a timer as expired.
pub open spec fn grace_nanos() -> nat {
    250_000
}

/// Whether a timer with period `delta_nanos` counts as expired after
/// `elapsed_nanos`: at most the grace period short of its period.
pub open spec fn is_expired(elapsed_nanos: nat, delta_nanos: nat) -> bool {
    elapsed_nanos + grace_nanos() >= delta_nanos
}

/// Whether a timer still runs after a notification that found it expired
/// (`expired`) or not: a timer that fires once stops when it fires.
pub open spec fn running_after(running: bool, timer_type: TimerType, expired: bool) -> bool {
    running && !(expired && timer_type == TimerType::FireOnce)
}

/// A notification never turns a timer on: whatever it finds, a timer runs
/// after it only if it ran before, so a stopped timer stays stopped (and
/// never fires) until it is started again.
pub proof fn lemma_notification_never_starts(
    running: bool,
    timer_type: TimerType,
    expired: bool,
)
    ensures
        running_after(running, timer_type, expired) ==> running,
        !running ==> !running_after(running, timer_type, expired),
        !expired ==> running_after(running, timer_type, expired) == running,
{
}

/// A timer that fires once fires at most once: after a notification that
/// made it fire it no longer runs, so no later notification makes it fire.
/// A periodic timer keeps running through its notifications.
pub proof fn lemma_fire_once_fires_once(expired: bool)
    ensures
        expired ==> !running_after(true, TimerType::FireOnce, expired),
        !running_after(false, TimerType::FireOnce, expired),
        running_after(true, TimerType::Periodic, expired),
{
}

/// A timer of the runtime's timer thread. `Inner` holds what the operating
/// system and the callback need.
pub struct Timer<Inner> {
    id: TimerId,
    name: String,
    delta: TimeSpan,
    timer_type: TimerType,
    running: bool,
    inner: Inner,
}

impl<Inner> Timer<Inner> {
    pub closed spec fn spec_id(self) -> TimerId {
        self.id
    }

    pub closed spec fn spec_name(self) -> Seq<char> {
        self.name@
    }

    pub closed spec fn spec_delta(self) -> TimeSpan {
        self.delta
    }

    pub closed spec fn spec_timer_type(self) -> TimerType {
        self.timer_type
    }

    /// Whether the timer is armed.
    pub closed spec fn is_running(self) -> bool {
        self.running
    }

    pub closed spec fn spec_inner(self) -> Inner {
        self.inner
    }

    /// A timer that is not running.
    pub fn new(id: TimerId, name: &str, delta: TimeSpan, timer_type: TimerType, inner: Inner) -> (timer: Self)
        ensures
            timer.spec_id() == id,
            timer.spec_name() == name@,
            timer.spec_delta() == delta,
            timer.spec_timer_type() == timer_type,
            !timer.is_running(),
            timer.spec_inner() == inner,
    {
        Timer { id, name: name.to_string(), delta, timer_type, running: false, inner }
    }

    pub fn get_id(&self) -> (id: TimerId)
        ensures
            id == self.spec_id(),
    {
        self.id
    }

    pub fn running(&self) -> (running: bool)
        ensures
            running == self.is_running(),
    {
        self.running
    }

    pub fn inner(&self) -> (inner: &Inner)
        ensures
            *inner == self.spec_inner(),
    {
        &self.inner
    }

    pub fn inner_mut(&mut self) -> (inner: &mut Inner)
        ensures
            *inner == old(self).spec_inner(),
            final(self).spec_inner() == *final(inner),
            final(self).spec_id() == old(self).spec_id(),
            final(self).spec_name() == old(self).spec_name(),
            final(self).spec_delta() == old(self).spec_delta(),
            final(self).spec_timer_type() == old(self).spec_timer_type(),
            final(self).is_running() == old(self).is_running(),
    {
        &mut self.inner
    }

    /// The values that arm this timer.
    pub fn start_spec(&self) -> (spec: TimerSpec)
        ensures
            spec == armed_spec(self.spec_delta(), self.spec_timer_type() == TimerType::Periodic),
    {
        arm_spec(&self.delta, self.timer_type == TimerType::Periodic)
    }

    /// Records that the timer was armed.
    pub fn mark_started(&mut self)
        ensures
            final(self).is_running(),
            final(self).spec_id() == old(self).spec_id(),
            final(self).spec_name() == old(self).spec_name(),
            final(self).spec_delta() == old(self).spec_delta(),
            final(self).spec_timer_type() == old(self).spec_timer_type(),
            final(self).spec_inner() == old(self).spec_inner(),
    {
        self.running = true;
    }

    /// Records that the timer was disarmed.
    pub fn mark_stopped(&mut self)
        ensures
            !final(self).is_running(),
            final(self).spec_id() == old(self).spec_id(),
            final(self).spec_name() == old(self).spec_name(),
            final(self).spec_delta() == old(self).spec_delta(),
            final(self).spec_timer_type() == old(self).spec_timer_type(),
            final(self).spec_inner() == old(self).spec_inner(),
    {
        self.running = false;
    }

    /// Whether the period is at least the grace period, so that the expiry
    /// rule can be applied to this timer.
    pub fn period_covers_grace(&self) -> (covers: bool)
        ensures
            covers == (self.spec_delta()@ >= grace_nanos()),
    {
        let grace = TimeSpan::from_micros(250);
        !grace.longer_than(&self.delta)
    }

    /// Applies the expiry rule after `elapsed` since the timer last fired:
    /// whether it fires now, which a running timer does. A timer
    /// that fires once stops running when it fires. `None` where the timer
    /// has not expired yet: the timer thread holds every registered timer to
    /// have expired when it is woken, and aborts on `None` (as it does,
    /// before this rule, on a period shorter than the grace period).
    pub fn on_notification(&mut self, elapsed: &TimeSpan) -> (fired: Option<bool>)
        requires
            old(self).spec_delta()@ >= grace_nanos(),
        ensures
            fired is None <==> !is_expired(elapsed@, old(self).spec_delta()@),
            fired matches Some(f) ==> f == old(self).is_running(),
            fired == Some(true) ==> old(self).is_running(),
            final(self).is_running() ==> old(self).is_running(),
            fired is None ==> final(self).is_running() == old(self).is_running(),
            old(self).is_running() && old(self).spec_timer_type() == TimerType::Periodic
                ==> final(self).is_running(),
            fired is Some && old(self).spec_timer_type() == TimerType::FireOnce
                ==> !final(self).is_running(),
            final(self).is_running() == running_after(
                old(self).is_running(),
                old(self).spec_timer_type(),
                fired is Some,
            ),
            final(self).spec_id() == old(self).spec_id(),
            final(self).spec_name() == old(self).spec_name(),
            final(self).spec_delta() == old(self).spec_delta(),
            final(self).spec_timer_type() == old(self).spec_timer_type(),
            final(self).spec_inner() == old(self).spec_inner(),
    {
        let grace = TimeSpan::from_micros(250);
        let threshold = match self.delta.checked_sub(&grace) {
            Some(t) => t,
            None => grace,
        };
        // Of the two ways the rule counts a timer as expired, the second
        // (within the grace period on either side) implies the first.
        let expired = !threshold.longer_than(elapsed);
        if !expired {
            return None;
        }
        if self.running {
            if self.timer_type == TimerType::FireOnce {
                self.running = false;
            }
            Some(true)
        } else {
            Some(false)
        }
    }

    /// The description of the timer: identifier, name, type, period in
    /// microseconds and the microseconds since it last fired.
    pub fn describe(&self, since_last_expiry_micros: u128) -> (text: String)
        ensures
            text@ == timer_description(
                self.spec_id(),
                self.spec_name(),
                self.spec_timer_type(),
                self.spec_delta()@ / 1_000,
                since_last_expiry_micros as nat,
            ),
    {
        let mut text = String::from_str("(id:");
        push_decimal(&mut text, self.id as u128);
        text.append(" name:'");
        text.append(self.name.as_str());
        text.append("' type:'");
        text.append(timer_type_name(self.timer_type));
        text.append("' period:");
        push_decimal(&mut text, self.delta.as_micros());
        text.append("us since-last-expiry:");
        push_decimal(&mut text, since_last_expiry_micros);
        text.append("us)");
        proof {
            reveal_strlit("(id:");
            reveal_strlit(" name:'");
            reveal_strlit("' type:'");
            reveal_strlit("' period:");
            reveal_strlit("us since-last-expiry:");
            reveal_strlit("us)");
        }
        assert(text@ =~= timer_description(
            self.spec_id(),
            self.spec_name(),
            self.spec_timer_type(),
            self.spec_delta()@ / 1_000,
            since_last_expiry_micros as nat,
        ));
        text
    }
}

/// The name of a timer type.
pub open spec fn spec_timer_type_name(timer_type: TimerType) -> Seq<char> {
    match timer_type {
        TimerType::FireOnce => seq!['F', 'i', 'r', 'e', 'O', 'n', 'c', 'e'],
        TimerType::Periodic => seq!['P', 'e', 'r', 'i', 'o', 'd', 'i', 'c'],
    }
}

/// The name of a timer type.
pub fn timer_type_name(timer_type: TimerType) -> (name: &'static str)
    ensures
        name@ == spec_timer_type_name(timer_type),
{
    match timer_type {
        TimerType::FireOnce => {
            proof {
                reveal_strlit("FireOnce");
            }
            "FireOnce"
        },
        TimerType::Periodic => {
            proof {
                reveal_strlit("Periodic");
            }
            "Periodic"
        },
    }
}

/// `(id:<id> name:'<name>' type:'<type>' period:<p>us since-last-expiry:<s>us)`.
pub open spec fn timer_description(
    id: TimerId,
    name: Seq<char>,
    timer_type: TimerType,
    period_micros: nat,
    since_micros: nat,
) -> Seq<char> {
    seq!['(', 'i', 'd', ':'] + decimal(id as nat) + seq![' ', 'n', 'a', 'm', 'e', ':', '\'']
        + name + seq!['\'', ' ', 't', 'y', 'p', 'e', ':', '\''] + spec_timer_type_name(timer_type)
        + seq!['\'', ' ', 'p', 'e', 'r', 'i', 'o', 'd', ':'] + decimal(period_micros) + seq![
        'u',
        's',
        ' ',
        's',
        'i',
        'n',
        'c',
        'e',
        '-',
        'l',
        'a',
        's',
        't',
        '-',
        'e',
        'x',
        'p',
        'i',
        'r',
        'y',
        ':',
    ] + decimal(since_micros) + seq!['u', 's', ')']
}

} // verus!
