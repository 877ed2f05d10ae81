//! A worker that only reports what happens to it.

use vstd::prelude::*;
use vstd::string::*;

verus! {

/// The events a worker handles.
#[derive(PartialEq, Eq, Structural, Clone, Copy, Debug)]
pub enum WorkerEvent {
    TestA,
    TestB,
}

/// A worker without state.
pub struct Worker {}

impl Worker {
    /// What the worker reports when its thread starts.
    pub fn starting() -> (report: &'static str)
        ensures
            report@ == "starting worker thread"@,
    {
        "starting worker thread"
    }

    /// What the worker reports for an event.
    pub fn handle_event(event: WorkerEvent) -> (report: &'static str)
        ensures
            report@ == match event {
                WorkerEvent::TestA => "got event - a"@,
                WorkerEvent::TestB => "got event - b"@,
            },
    {
        match event {
            WorkerEvent::TestA => "got event - a",
            WorkerEvent::TestB => "got event - b",
        }
    }

    /// What the worker reports when its thread stops.
    pub fn stopping() -> (report: &'static str)
        ensures
            report@ == "stopping worker thread"@,
    {
        "stopping worker thread"
    }
}

} // verus!
