//! A deterministic test harness for asynchronous code.
//!
//! Production code written against an asynchronous runtime is driven here one
//! explicit step at a time: no hidden scheduler, no wall-clock waiting, no
//! real sockets. Every suspendable operation is a plain step function that
//! returns [`step::Step`]: either `Suspended` or `Completed` with a result.
//! Resumption is nothing more than calling the step function again after the
//! test has injected new stimulus (advanced the clock, pushed a value,
//! dropped a handle).
//!
//! The shared state that the real runtime would guard behind reference
//! counting and locks is held here as one explicit state block per primitive
//! (a channel's queue, a clock's timestamp, a stream's script). Handle types
//! such as a channel's `Sender` and `Receiver` act on that state through
//! `&mut` borrows, so every transition is visible to the verifier and every
//! contract pins down exactly what a step may do.

pub mod clock;
pub mod delay;
pub mod instant;
pub mod io;
pub mod mpsc;
pub mod oneshot;
pub mod step;
