//! A publish-subscribe channel in the style of the Disruptor.
//!
//! Publishers write events into a ring buffer under consecutive sequence numbers; every consumer
//! reads all of them, in order and at its own pace. A publisher that would overwrite an event
//! which some consumer is not done with has to wait.
//!
//! The crate is the decision part of such a channel: each operation looks at the state, changes
//! it, and returns at once, telling what its caller has to wait for and whom it has to wake. The
//! state is a `Bus`, the handles are `Publisher` and `Consumer`, `state` holds the model that the
//! contracts speak of, `effects` says what each operation does to each part of it, and `laws`
//! holds what is true of a channel as a whole.

pub mod bus;
pub mod consumer;
pub mod consumer_id;
pub mod controller;
pub mod cursor;
pub mod effects;
pub mod fence;
pub mod laws;
pub mod padded;
pub mod positions;
pub mod publisher;
pub mod ring_buffer;
pub mod sequence;
pub mod sequence_barrier;
pub mod signal;
pub mod state;

pub use bus::{channel, Bus};
pub use consumer::{Consumer, EventGuard, NextStep, OwnedEventGuard};
pub use publisher::{PublishStep, Publisher};
