# rcore_labs

A verified core for a small RISC-V teaching kernel and a set of
operating-systems exercise programs, written in Verus.

- `src/my_own_os`: the fixed-array run queue (`queue`), the round-robin
  `Processor` and the thread pool's identifier allocation.
- `src/lab1`, `src/lab3`, `src/lab5`: trap frames, thread and task contexts,
  where register images go on kernel stacks, and the idle-thread scheduler
  over a thread pool.
- `src/lab4`: dispatch of traps on their cause (decoded by the `riscv`
  crate) and the timer deadline.
- `src/ostep_rust`: the bounded buffer of the producer/consumer program, the
  fork order of the dining philosophers and the reader counting of the
  reader-writer lock.

Each module states its behaviour in `requires`/`ensures` over mathematical
models and proves the properties that span several operations (first in,
first out; round-robin rotation; global fork order; the readers' hold on
the write lock) as public proof functions.

`app/` holds what runs around the library: raw memory stores, register
access, context-switch assembly for the RISC-V target, and the threaded
exercise programs.
