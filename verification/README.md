# taskdispatch

A CPU-budgeted task dispatcher, verified with Verus.

- `src/task.rs`: tasks, kinds and CPU costs (integer percentages), the seeded
  workload generator (draws come from `rand`).
- `src/queue.rs`: the dispatch queue, its abstract state, the FIFO and optimized
  policies, and the laws that the budget obeys.
- `src/dispatch.rs`: the decisions of the worker loop, of the completion collector
  and of the generator's pacing.
- `src/metrics.rs`, `src/monitor.rs`: run statistics as exact integer sums.
- `src/numbers.rs`, `src/guess.rs`, `src/colors.rs`, `src/items.rs`, `src/menu.rs`:
  small exercise programs that came with the project.
- `app/`: threads, locks, channels, timing, printing, files and the
  floating-point averages around the library.

Times are nanoseconds since the start of a run; CPU use is a whole percentage.
