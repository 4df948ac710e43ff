//! The primitives that the layers exchange across their service access points.

pub mod control;
pub mod lcmc;
pub mod lmm;
pub mod sapmsg;
