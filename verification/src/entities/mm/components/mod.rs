//! The parts that mobility management is built from.

pub mod client_state;
