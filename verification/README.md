# tokio_lite

A small async runtime: a last-in-first-out executor, a reactor that wakes tasks
when their sockets become ready, and TCP listener, stream and timer futures.

- `src/` is the verified library: the run queue and the executor's turn, the
  registry of I/O sources (a `slab::Slab` behind trusted wrappers), the
  reactor's dispatch of readiness events, the decisions of the accept, read,
  write and timer futures, the runtime counters, and the nesting of runtime
  contexts.
- `app/` is the echo server around it: threads, locks, `mio` polling, socket
  calls and future polling, each of which hands its outcome to the library.
- `tests/` runs the library on concrete values.
