//! The handler runtime: timer requests served by one timer thread, the event
//! routing of handler threads, the TCP poller's connection bookkeeping and
//! exit-signal handling.

pub mod signal_handler;
pub mod socket_handler;
pub mod threading;
pub mod time_handler;
pub mod timer;
