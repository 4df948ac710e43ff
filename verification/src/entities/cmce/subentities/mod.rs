//! The sub-entities of circuit mode control.

pub mod cc;
pub mod sds;
pub mod ss;
