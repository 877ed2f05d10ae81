//! Timers of the handler runtime: their settings, the values that arm and
//! disarm them, and their description.

use crate::time_span::TimeSpan;
use crate::timer::{arm_spec, armed_spec, disarm_spec, disarmed_spec, TimerSpec};
use vstd::prelude::*;
use vstd::string::*;

verus! {

pub type TimerID = usize;

/// Whether a timer fires again after each period or once.
#[derive(PartialEq, Eq, Structural, Clone, Copy, Debug)]
pub enum TimerType {
    Periodic,
    FireOnce,
}

/// What `{:?}` shows of a `std::time::Duration` of `secs` seconds and
/// `nanos` nanoseconds.
pub uninterp spec fn duration_debug_text(secs: u64, nanos: u32) -> Seq<char>;

/// Formats `std::time::Duration::new(secs, nanos)` with `{:?}`.
#[verifier::external_body]
fn duration_debug(secs: u64, nanos: u32) -> (text: String)
    requires
        nanos < 1_000_000_000,
    ensures
        text@ == duration_debug_text(secs, nanos),
{
    format!("{:?}", std::time::Duration::new(secs, nanos))
}

/// The name of a timer type.
pub open spec fn spec_timer_type_name(timer_type: TimerType) -> Seq<char> {
    match timer_type {
        TimerType::FireOnce => seq!['F', 'i', 'r', 'e', 'O', 'n', 'c', 'e'],
        TimerType::Periodic => seq!['P', 'e', 'r', 'i', 'o', 'd', 'i', 'c'],
    }
}

/// `(name:'<name>' type:'<type>' period:<period>)`.
pub open spec fn timer_description(name: Seq<char>, timer_type: TimerType, period: Seq<char>) -> Seq<
    char,
> {
    seq!['(', 'n', 'a', 'm', 'e', ':', '\''] + name + seq!['\'', ' ', 't', 'y', 'p', 'e', ':', '\'']
        + spec_timer_type_name(timer_type) + seq!['\'', ' ', 'p', 'e', 'r', 'i', 'o', 'd', ':']
        + period + seq![')']
}

/// The description of a timer whose period reads `period`.
pub fn describe_timer(name: &str, timer_type: TimerType, period: &str) -> (text: String)
    ensures
        text@ == timer_description(name@, timer_type, period@),
{
    let mut text = String::from_str("(name:'");
    text.append(name);
    text.append("' type:'");
    match timer_type {
        TimerType::FireOnce => text.append("FireOnce"),
        TimerType::Periodic => text.append("Periodic"),
    }
    text.append("' period:");
    text.append(period);
    text.append(")");
    proof {
        reveal_strlit("(name:'");
        reveal_strlit("' type:'");
        reveal_strlit("FireOnce");
        reveal_strlit("Periodic");
        reveal_strlit("' period:");
        reveal_strlit(")");
    }
    assert(text@ =~= timer_description(name@, timer_type, period@));
    text
}

/// A timer of the handler runtime: its name, period and type. `Inner` holds
/// what the operating system and the callback need.
pub struct Timer<Inner> {
    name: String,
    delta: TimeSpan,
    timer_type: TimerType,
    inner: Inner,
}

impl<Inner> Timer<Inner> {
    pub closed spec fn spec_name(self) -> Seq<char> {
        self.name@
    }

    pub closed spec fn spec_delta(self) -> TimeSpan {
        self.delta
    }

    pub closed spec fn spec_timer_type(self) -> TimerType {
        self.timer_type
    }

    pub closed spec fn spec_inner(self) -> Inner {
        self.inner
    }

    pub fn new(name: &str, delta: TimeSpan, timer_type: TimerType, inner: Inner) -> (timer: Self)
        ensures
            timer.spec_name() == name@,
            timer.spec_delta() == delta,
            timer.spec_timer_type() == timer_type,
            timer.spec_inner() == inner,
    {
        Timer { name: name.to_string(), delta, timer_type, inner }
    }

    pub fn inner(&self) -> (inner: &Inner)
        ensures
            *inner == self.spec_inner(),
    {
        &self.inner
    }

    /// The values that start the timer: first expiry after the period and,
    /// for a periodic timer, every period after that.
    pub fn start_spec(&self) -> (spec: TimerSpec)
        ensures
            spec == armed_spec(self.spec_delta(), self.spec_timer_type() == TimerType::Periodic),
    {
        arm_spec(&self.delta, self.timer_type == TimerType::Periodic)
    }

    /// The values that stop the timer.
    pub fn stop_spec(&self) -> (spec: TimerSpec)
        ensures
            spec == disarmed_spec(),
    {
        disarm_spec()
    }

    /// The description of the timer: name, type and period as `{:?}` shows
    /// a duration.
    pub fn describe(&self) -> (text: String)
        ensures
            text@ == timer_description(
                self.spec_name(),
                self.spec_timer_type(),
                duration_debug_text(
                    (self.spec_delta()@ / 1_000_000_000) as u64,
                    (self.spec_delta()@ % 1_000_000_000) as u32,
                ),
            ),
    {
        let period = duration_debug(self.delta.as_secs(), self.delta.subsec_nanos());
        describe_timer(self.name.as_str(), self.timer_type, period.as_str())
    }
}

} // verus!
