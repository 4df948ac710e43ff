//! Logical link control: constants and timers.

pub mod consts;
pub mod timers;
