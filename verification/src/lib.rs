//! Drain coordination for graceful shutdown: a `Signal` starts a drain, every
//! `Watch` is told about it, and the `Drained` half resolves once all the
//! watchers have gone away.

pub mod drain;
mod sync;

pub use sync::SharedSignal;
