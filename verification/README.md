# sage

A small runtime of handler threads, timers and a TCP poller, split in two:

- `src/` is the library, verified with Verus: error values, time spans,
  the level-filtering logger and its log line, deadline reports, timer
  identifiers, arming values and the expiry rule, the timer thread's table
  and request handling, the TCP poller's connection table, the routing and
  exit decisions of handler threads, exit-signal classification and the
  example dispatcher's rules.
- `app/` is the program around it: threads, channels, POSIX timers and
  signal handlers (`libc`), sockets (`mio`), signal flags (`signal-hook`),
  the global loggers (`log`, `tracing-subscriber`) and the clock
  (`chrono`). `app/main.rs` runs the dispatcher program, or with `simple`
  or `network` the example and the TCP server on the handler runtime.
