//! Circuit mode control.

pub mod cmce_bs;
pub mod components;
pub mod enums;
pub mod fields;
pub mod pdus;
pub mod subentities;
