//! The earlier machine: a memory bus with its own simpler video unit.

pub mod bus;
pub mod gpu;
