//! Building blocks of a small thread and timer runtime: error values, a
//! level-filtering logger, deadline reports, timer bookkeeping, the decisions
//! of the event loops and of the TCP poller, and exit-signal handling.
//!
//! Everything here is plain data and decisions over it; the threads, channels,
//! POSIX timers, sockets and signal handlers that carry it out live in the
//! program under `app/`.

pub mod dispatch;
pub mod errors;
pub mod logging;
pub mod scoped_deadline;
pub mod sg_threading;
pub mod signal_handler;
pub mod text;
pub mod time_span;
pub mod threading;
pub mod timer;
pub mod worker_thread;
