# ohos_ffrt

The decision logic of an FFRT (OpenHarmony task runtime) binding, verified
with Verus:

- `signal::mpsc`, `signal::oneshot`, `channel`: the shared state of the
  channels as state machines, generic over the waker type; each operation
  states the state after it, what it returns and whom it wakes.
- `ffrt_macro`: the argument parser and the expansion plan of the `ffrt`
  attribute, over plain tokens.
- `lock`, `task`, `sys`: mutex kinds, lock status checks, QoS and priority
  codes.
- `runtime`: errors, the task cell of a re-submitting executor, and the
  small decisions of yielding, sleeping and timeouts.

`app/` holds the code around it: FFRT mutexes and condition variables that
guard the channel states, task submission, futures, N-API helpers and the
token plumbing of the attribute macro.
