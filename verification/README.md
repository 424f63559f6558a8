# gyre

A multi-producer, multi-consumer publish-subscribe channel in the style of the Disruptor, verified
with Verus.

- Every consumer receives every event that is published while it is subscribed, once and in order,
  at its own pace.
- A publisher waits when the slowest consumer has `capacity - 1` events still ahead of it, so no
  event is overwritten that a consumer is not done with.
- An event that finds no consumer goes back to its owner, and the channel stays as it was.
- A consumer moves on when it releases the guard of its event, not before.
- The channel closes with its last publisher; what was published is still delivered.

## Layout

- `src/` is the verified library. `Bus` is the state of a channel, `Publisher` and `Consumer` are
  its handles. Each operation returns at once: it says what became of the request, and, as
  `Signals`, which waiting tasks are to be woken. `state.rs` holds the model that the contracts
  speak of and `laws.rs` what holds of a channel as a whole.
- `padded.rs` and `positions.rs` are the only places where the library relies on outside code, the
  cache-line padding of `crossbeam-utils` and the hash map of `papaya`.
- `app/` is the asynchronous face: it keeps the state behind a mutex, waits with Tokio, and sends
  the wake-ups.
- `tests/` exercises the library.
