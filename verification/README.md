# queue

A command sequencer: commands started at the same time from different terminals
run one after the other, in the order in which they arrived, and a queue can be
locked for exclusive use and released with the token that the lock handed out.

- `src/` is the verified library (Verus): queue entries and their cleanup, the
  waiter tickets and whose turn it is, explicit locks and their release, the
  decisions of the waiting loops, and the status report as JSON-ready values and
  as text. `src/platform.rs` holds the trusted calls into the clock, the random
  source (UUIDs), the process table and `std`.
- `app/` is the command-line program: argument parsing, file locks, the state,
  lock and ticket files, the waiting loops, running the child process, Ctrl+C.
- `tests/` exercises the library.
