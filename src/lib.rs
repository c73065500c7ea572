//! A fixed-capacity, thread-safe message container with blocking and
//! non-blocking access, predicate removal and a terminal closed state.
pub mod laws;
pub mod outcome;
pub mod queue;
pub mod selection;
pub mod stack;
mod sync;

pub use outcome::{Awaited, MessageResult, Policy};
pub use queue::MessageQueue;
pub use stack::BoundedStack;
