//! Deadlines on a scope of work: how long the work took, and whether that
//! was longer than it was given.

use crate::text::{decimal, push_decimal};
use crate::time_span::TimeSpan;
use vstd::prelude::*;
use vstd::string::*;

verus! {

/// `std::time::Instant`, a reading of the monotonic clock.
#[verifier::external_type_specification]
#[verifier::external_body]
pub struct ExInstant(std::time::Instant);

/// Reads the monotonic clock (`std::time::Instant::now`).
#[verifier::external_body]
fn instant_now() -> (now: std::time::Instant) {
    std::time::Instant::now()
}

/// The time passed since `start` (`std::time::Instant::elapsed`), in whole
/// seconds and nanoseconds.
#[verifier::external_body]
fn elapsed_parts(start: &std::time::Instant) -> (parts: (u64, u32))
    ensures
        parts.1 < 1_000_000_000,
{
    let elapsed = start.elapsed();
    (elapsed.as_secs(), elapsed.subsec_nanos())
}

/// A piece of work with a deadline, started when the deadline was made.
pub struct ScopedDeadline {
    tag: String,
    start: std::time::Instant,
    deadline: TimeSpan,
}

/// The verdict on a piece of work once it is done.
pub struct DeadlineReport {
    /// `<tag> completed in <milliseconds>ms`.
    pub message: String,
    /// Whether the work took longer than its deadline.
    pub exceeded: bool,
    /// How long the work took.
    pub elapsed: TimeSpan,
}

/// `<tag> completed in <millis>ms`.
pub open spec fn completion_message(tag: Seq<char>, millis: nat) -> Seq<char> {
    tag + " completed in "@ + decimal(millis) + "ms"@
}

/// The verdict on work tagged `tag` that took `elapsed` against `deadline`.
pub fn deadline_report(tag: &str, elapsed: &TimeSpan, deadline: &TimeSpan) -> (report:
    DeadlineReport)
    ensures
        report.message@ == completion_message(tag@, elapsed@ / 1_000_000),
        report.exceeded == (elapsed@ > deadline@),
        report.elapsed == *elapsed,
{
    let mut message = String::from_str(tag);
    message.append(" completed in ");
    push_decimal(&mut message, elapsed.as_millis());
    message.append("ms");
    proof {
        reveal_strlit(" completed in ");
        reveal_strlit("ms");
    }
    assert(message@ =~= completion_message(tag@, elapsed@ / 1_000_000));
    DeadlineReport { message, exceeded: elapsed.longer_than(deadline), elapsed: *elapsed }
}

impl ScopedDeadline {
    pub closed spec fn spec_tag(self) -> Seq<char> {
        self.tag@
    }

    pub closed spec fn spec_deadline(self) -> TimeSpan {
        self.deadline
    }

    /// Starts the clock on work tagged `tag` that should take no longer than
    /// `deadline`.
    pub fn new(tag: &str, deadline: TimeSpan) -> (scoped: Self)
        ensures
            scoped.spec_tag() == tag@,
            scoped.spec_deadline() == deadline,
    {
        ScopedDeadline { tag: tag.to_string(), start: instant_now(), deadline }
    }

    /// The verdict on the work now that it is done: the time taken since
    /// the deadline was made, against the deadline.
    pub fn report(&self) -> (report: DeadlineReport)
        ensures
            report.message@ == completion_message(self.spec_tag(), report.elapsed@ / 1_000_000),
            report.exceeded == (report.elapsed@ > self.spec_deadline()@),
    {
        let (secs, nanos) = elapsed_parts(&self.start);
        let elapsed = TimeSpan::new(secs, nanos);
        deadline_report(self.tag.as_str(), &elapsed, &self.deadline)
    }
}

} // verus!
