# linux_practice

Small experiments on how Linux manages processes and memory: creating
processes, a time-sharing measurement with several busy workers, demand
paging, copy-on-write after `fork`, file and anonymous mappings, an invalid
access, and the cost of a write per cache line for buffers of different sizes.

- `src/` is the verified library (Verus): clock differences, command-line
  checks, the workload estimate and the workers' progress report, decimal
  reading and writing, shell command lines, page and cache-line strides, and
  the C-string view of a mapped file.
- `app/` is the program around it: `app/main.rs` takes the name of an
  experiment (`fork`, `fork-and-exec`, `sched`, `cow`, `demand-paging`,
  `filemap`, `mmap`, `segv`, `cache`) followed by that experiment's arguments,
  and does the system calls, the printing and the process control.
- `tests/` runs the library on concrete values.
