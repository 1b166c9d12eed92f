# ravenscar_app

The core of a Ravenscar-style extended real-time application for an STM32F3
board, written in Verus.

* `src/` is the verified library: the clock arithmetic on 1 MHz instants
  (through `fugit`), the activation log, the activation manager, the auxiliary
  request/run counters, the timing trackers, the timing decisions of the tasks,
  and the index logic of the small Whetstone workload.
* `app/` is the firmware around it: the RTIC tasks, the SysTick monotonic
  clock, logging through `defmt`, and the floating-point part of the workload.
* `tests/` runs the library on concrete values.
