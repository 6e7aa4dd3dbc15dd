# hamerkop

Building blocks of a caching server that does its networking through
Linux's io_uring, verified with Verus.

## Layout

- `src/` — the verified library.
  - `fixedvec` — a vector whose capacity is fixed when it is made.
  - `slotmap` — a slot map whose elements never move (slabs of fixed size,
    free slots on a linked list).
  - `uring` — the io_uring records: flags, submission and completion
    entries, the operations that fill in a submission entry, views of the
    shared rings, probe results, and the sizes and decisions of ring setup
    and submission.
  - `executor` — the bookkeeping of the executor: requests in flight, the
    buffer pool handed to the kernel, the tasks to wake, and the run queue.
  - `segcache` — the segment cache's chunk headers, and segments that
    chunks (header word, key, value) are appended to.
  - `metrics` — counters, gauges and lazily computed values.
  - `util` — best-effort deduplication, fixed-size chunks over two slices,
    and joining futures.
  - `tokenreplace` — replacing an identifier in a token stream.
- `app/` — what talks to the kernel or polls futures: mapping the rings,
  the system calls, the executor's event loop, a lazy cell shared between
  threads, and token replacement on `proc_macro2` streams. The library
  computes the ring sizes, the submission plan, the completions to wake
  and the buffer pool's ids; the app keeps the system calls, the memory
  mappings, the retries of a submission while the kernel is busy, and the
  polling of futures.
- `tests/` — tests of the library.
