//! The parts of the shim, leaf first.

pub mod channel;
pub mod coordinator;
pub mod path;
pub mod process;
pub mod signal;
