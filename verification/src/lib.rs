//! A one-byte-tagged message codec and the decision core of a fixed-size
//! worker pool fed from a single dispatch queue.
//!
//! The crate performs no I/O and starts no thread. A server reads a buffer,
//! decodes it with [`Message::deserialize`], and submits the work that the
//! message asks for to a [`WorkerQueue`]; the threads that run the work take
//! every decision (which job, when to wait, when to stop) from the pool.

pub mod history;
pub mod message;
pub mod pool;
pub mod queue;

pub use message::{DecodeError, Message, MsgType, Outcome};
pub use pool::{JobOutcome, Step, WorkerQueue, WorkerState};
pub use queue::{Claim, DispatchQueue, QueueClosed};
