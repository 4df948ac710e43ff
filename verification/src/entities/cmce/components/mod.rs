//! The parts that circuit mode control is built from.

pub mod subscribers;
