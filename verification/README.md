# rclrs (verified executor core)

The executor side of a ROS 2 client library, written in Verus.

- `src/wait.rs`: `WaitSet`, a capacity-bounded registry of subscriptions, clients and
  services. Adding past a capacity fails and leaves the set unchanged; `clear` restores the
  state that `new` gives; `wait` converts the timeout, hands it to the middleware's wait and
  reports the ready entities in registration order, without changing what is registered.
- `src/time.rs`: the timeout conversion (`None` waits forever, larger than `i64::MAX`
  nanoseconds is rejected).
- `src/node.rs`: the entity traits and a node that owns entities.
- `src/context.rs`: the shared context behind a `parking_lot` mutex.
- `src/lib.rs`: `spin_once`, which registers every live entity of a node, waits, and runs the
  ready ones in order, stopping at the first error; `spin_step` and `spin_some_with`, one step
  of a spin loop given what the loop's check of the context found, and
  `spin_until_future_step` for the loop that waits on a future; and `spin_outcome`, which
  decides how a spin loop treats a result.
- `app/`: the loops that may run forever (`spin`, `spin_some`, `spin_until_future_complete`).

The middleware's initialisation of a wait set is passed in as a closure that receives the
context and the capacities; its error is returned unchanged. The middleware's wait is passed in
as a closure: it receives the wait set (whose registered entities it can read) and the timeout
in nanoseconds (`-1` for none), and returns, per registered entity, whether it became ready.
Nothing is assumed of what either returns; the contracts say what the library does with each
possible answer.
