//! A transparent command shim: the rules by which it finds the real
//! program, supervises it and relays signals to it, stated and proved.

pub mod cmd;
pub mod models;
pub mod types;
