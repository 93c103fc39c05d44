# loony_rs_runtime

The verified core of a small task runtime, and a program around it.

- `src/` is the library. It holds the rules of the runtime as plain state and
  steps: tasks and their state words, wakers and join handles, parkers, timers,
  I/O events, the schedulers with their queues, handles and runtimes. Each
  function states what it returns and changes, and the `law_*` functions state
  what holds through many calls.
- `app/` performs the steps with real threads, locks, clocks and selectors.
- `tests/` runs the library on concrete values.

A task is known by the key of its header in a table, and runtimes, threads and
parkers by numbers; what a thread keeps for itself is passed along. Times are in
nanoseconds.

The queues are those of `crossbeam::deque`, and I/O wakers stand in a `slab`.
What is believed of these two crates stands in `src/runtime/scheduler/queue.rs`
and `src/runtime/io.rs`.
