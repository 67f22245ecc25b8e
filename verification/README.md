# robot_coordination

A verified coordinator for a fleet of robots: registration, a task queue, exclusive zones and
heartbeat timeouts.

- `src/coordinator/` holds the operations of `RobotCoordinator`; `src/model.rs` says what each makes
  of the coordinator's state.
- `src/zone.rs` holds the guards that stand for a zone. A guard carries the mark of its coordinator,
  and a coordinator takes back only what is known to carry its mark: verified code can give a guard
  back nowhere but where it came from. It must be given back: dropping it leaves the zone held.
- `src/laws/` holds what follows for any sequence of operations (`src/trace.rs`): mutual exclusion,
  first in first out, no lost task, progress past held zones, totals that add up.
- `src/clock.rs` is the only trusted part: the monotonic clock of the standard library. An
  operation that reads it has a sibling, with `_at` at the end of its name, that takes the reading
  as an argument; a dispatch has its three steps instead.
- `src/benchmark.rs` holds the options and the workload of the scalability benchmark.
- `app/` shares a coordinator among threads, where a zone is given back when its lease is dropped.
  Built under the name `benchmark` it is the benchmark, under any other name the demonstrations.
