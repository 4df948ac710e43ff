//! Mobility management.

pub mod components;
pub mod enums;
pub mod fields;
pub mod mm_bs;
pub mod mm_ms;
pub mod pdus;
