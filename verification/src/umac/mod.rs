//! Upper MAC.

pub mod fields;
