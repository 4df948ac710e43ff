//! The CMCE PDUs.

pub mod d_setup;
pub mod u_setup;
