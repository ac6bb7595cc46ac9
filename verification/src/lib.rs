//! A minimal bridge between blocking, multi-threaded work and a single-threaded,
//! callback-driven consumer.
//!
//! The library models the whole bridge as verified data and state machines:
//! an append-only byte buffer ([`buffer::WritableBuffer`]), tasks that run off
//! the consumer thread and deliver an outcome exactly once ([`task::Task`]),
//! one-shot completion notifications ([`completion::Completion`]), a
//! single-producer/single-consumer channel ([`channel::Receiver`]), and the
//! adapter that turns a callback-invoked value into a blockable receive
//! ([`bridge::Bridge`]).

pub mod buffer;
pub mod bridge;
pub mod channel;
pub mod completion;
pub mod executor;
pub mod task;
